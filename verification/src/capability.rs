//! Capabilities of a generated wrapper, and the options that suppress them.

use vstd::prelude::*;
use vstd::string::*;

verus! {

/// The variant of generation.
#[derive(Clone, Copy, Debug, PartialEq, Eq, Structural)]
pub enum Mode {
    /// Honours the suppression options; emits no text parsing.
    Generic,
    /// For wrappers of text: every capability, text parsing and
    /// construction from a text slice, whatever the options say.
    StringSpecialized,
}

/// An operation of the wrapper that an option can suppress.
#[derive(Clone, Copy, Debug, PartialEq, Eq, Structural)]
pub enum Capability {
    Display,
    Equality,
    Order,
    Hashing,
    Duplication,
    Serialization,
}

/// A subset of the six capabilities.
#[derive(Clone, Copy, Debug, PartialEq, Eq, Structural)]
pub struct CapabilitySet {
    pub display: bool,
    pub equality: bool,
    pub order: bool,
    pub hashing: bool,
    pub duplication: bool,
    pub serialization: bool,
}

/// The suppression options of one declaration, one flag for each
/// recognized name.
#[derive(Clone, Copy, Debug, PartialEq, Eq, Structural)]
pub struct SuppressionOptions {
    pub no_display: bool,
    pub no_eq: bool,
    pub no_ord: bool,
    pub no_hash: bool,
    pub no_clone: bool,
    pub no_serde: bool,
}

/// The capability that the option called `name` suppresses, if `name` is one
/// of the six recognized names.
pub open spec fn suppressed_by(name: Seq<char>) -> Option<Capability> {
    if name == "NoDisplay"@ {
        Some(Capability::Display)
    } else if name == "NoEq"@ {
        Some(Capability::Equality)
    } else if name == "NoOrd"@ {
        Some(Capability::Order)
    } else if name == "NoHash"@ {
        Some(Capability::Hashing)
    } else if name == "NoClone"@ {
        Some(Capability::Duplication)
    } else if name == "NoSerde"@ {
        Some(Capability::Serialization)
    } else {
        None
    }
}

/// Whether one of `names` suppresses `c`.
pub open spec fn names_suppress(names: Seq<Seq<char>>, c: Capability) -> bool {
    exists|i: int| 0 <= i < names.len() && suppressed_by(#[trigger] names[i]) == Some(c)
}

/// The options that a list of option names stands for: a flag is set
/// exactly when one of the names is its option.
pub open spec fn options_of(names: Seq<Seq<char>>) -> SuppressionOptions {
    SuppressionOptions {
        no_display: names_suppress(names, Capability::Display),
        no_eq: names_suppress(names, Capability::Equality),
        no_ord: names_suppress(names, Capability::Order),
        no_hash: names_suppress(names, Capability::Hashing),
        no_clone: names_suppress(names, Capability::Duplication),
        no_serde: names_suppress(names, Capability::Serialization),
    }
}

/// The views of a vector of names.
pub open spec fn name_views(names: Seq<String>) -> Seq<Seq<char>> {
    Seq::new(names.len(), |i: int| names[i]@)
}

/// The capabilities in force in `mode` under `options`.
pub open spec fn resolved(mode: Mode, options: SuppressionOptions) -> CapabilitySet {
    match mode {
        Mode::StringSpecialized => CapabilitySet::full(),
        Mode::Generic => CapabilitySet {
            display: !options.no_display,
            equality: !options.no_eq,
            order: !options.no_ord,
            hashing: !options.no_hash,
            duplication: !options.no_clone,
            serialization: !options.no_serde,
        },
    }
}

impl CapabilitySet {
    /// Membership.
    pub open spec fn has(self, c: Capability) -> bool {
        match c {
            Capability::Display => self.display,
            Capability::Equality => self.equality,
            Capability::Order => self.order,
            Capability::Hashing => self.hashing,
            Capability::Duplication => self.duplication,
            Capability::Serialization => self.serialization,
        }
    }

    /// The set as a mathematical set.
    pub open spec fn view(self) -> Set<Capability> {
        Set::new(|c: Capability| self.has(c))
    }

    /// The set of all six.
    pub open spec fn full() -> CapabilitySet {
        CapabilitySet {
            display: true,
            equality: true,
            order: true,
            hashing: true,
            duplication: true,
            serialization: true,
        }
    }

    /// Every capability: the default.
    pub fn all() -> (caps: CapabilitySet)
        ensures
            caps == CapabilitySet::full(),
            forall|c: Capability| caps.has(c),
    {
        CapabilitySet {
            display: true,
            equality: true,
            order: true,
            hashing: true,
            duplication: true,
            serialization: true,
        }
    }

    /// Whether `c` is in the set.
    pub fn contains(&self, c: Capability) -> (r: bool)
        ensures
            r == self.has(c),
    {
        match c {
            Capability::Display => self.display,
            Capability::Equality => self.equality,
            Capability::Order => self.order,
            Capability::Hashing => self.hashing,
            Capability::Duplication => self.duplication,
            Capability::Serialization => self.serialization,
        }
    }

    /// The set with `c` taken out and nothing else changed.
    pub fn without(self, c: Capability) -> (caps: CapabilitySet)
        ensures
            !caps.has(c),
            forall|o: Capability| o != c ==> caps.has(o) == self.has(o),
            caps@ == self@.remove(c),
    {
        let mut caps = self;
        match c {
            Capability::Display => {
                caps.display = false;
            },
            Capability::Equality => {
                caps.equality = false;
            },
            Capability::Order => {
                caps.order = false;
            },
            Capability::Hashing => {
                caps.hashing = false;
            },
            Capability::Duplication => {
                caps.duplication = false;
            },
            Capability::Serialization => {
                caps.serialization = false;
            },
        }
        assert(caps@ =~= self@.remove(c));
        caps
    }
}

impl SuppressionOptions {
    /// Whether the options suppress `c`.
    pub open spec fn suppresses(self, c: Capability) -> bool {
        match c {
            Capability::Display => self.no_display,
            Capability::Equality => self.no_eq,
            Capability::Order => self.no_ord,
            Capability::Hashing => self.no_hash,
            Capability::Duplication => self.no_clone,
            Capability::Serialization => self.no_serde,
        }
    }

    /// The options after the option called `name` has been read: the flag
    /// of a recognized name is set, any other name changes nothing.
    pub open spec fn with_name(self, name: Seq<char>) -> SuppressionOptions {
        match suppressed_by(name) {
            Some(Capability::Display) => SuppressionOptions { no_display: true, ..self },
            Some(Capability::Equality) => SuppressionOptions { no_eq: true, ..self },
            Some(Capability::Order) => SuppressionOptions { no_ord: true, ..self },
            Some(Capability::Hashing) => SuppressionOptions { no_hash: true, ..self },
            Some(Capability::Duplication) => SuppressionOptions { no_clone: true, ..self },
            Some(Capability::Serialization) => SuppressionOptions { no_serde: true, ..self },
            None => self,
        }
    }

    /// No option: nothing is suppressed.
    pub fn none() -> (options: SuppressionOptions)
        ensures
            forall|c: Capability| !options.suppresses(c),
    {
        SuppressionOptions {
            no_display: false,
            no_eq: false,
            no_ord: false,
            no_hash: false,
            no_clone: false,
            no_serde: false,
        }
    }

    /// Reads one option name. A name that is not recognized is ignored.
    pub fn recognize(self, name: &String) -> (options: SuppressionOptions)
        ensures
            options == self.with_name(name@),
            forall|c: Capability|
                options.suppresses(c) == (self.suppresses(c) || suppressed_by(name@) == Some(c)),
    {
        let mut options = self;
        if *name == String::from_str("NoDisplay") {
            options.no_display = true;
        } else if *name == String::from_str("NoEq") {
            options.no_eq = true;
        } else if *name == String::from_str("NoOrd") {
            options.no_ord = true;
        } else if *name == String::from_str("NoHash") {
            options.no_hash = true;
        } else if *name == String::from_str("NoClone") {
            options.no_clone = true;
        } else if *name == String::from_str("NoSerde") {
            options.no_serde = true;
        }
        options
    }

    /// Reads a list of option names: a capability is suppressed exactly when
    /// one of the names is its option. Order and repetition do not matter.
    pub fn from_names(names: &Vec<String>) -> (options: SuppressionOptions)
        ensures
            options == options_of(name_views(names@)),
            forall|c: Capability|
                options.suppresses(c) == names_suppress(name_views(names@), c),
    {
        let mut options = SuppressionOptions::none();
        let mut i: usize = 0;
        while i < names.len()
            invariant
                i <= names.len(),
                forall|c: Capability|
                    options.suppresses(c) == names_suppress(
                        name_views(names@).subrange(0, i as int),
                        c,
                    ),
            decreases names.len() - i,
        {
            let ghost before = name_views(names@).subrange(0, i as int);
            let ghost after = name_views(names@).subrange(0, i + 1);
            let ghost prev = options;
            options = options.recognize(&names[i]);
            proof {
                assert(after[i as int] == names[i as int]@);
                assert forall|c: Capability|
                    options.suppresses(c) == names_suppress(after, c) by {
                    if names_suppress(before, c) {
                        let j = choose|j: int|
                            0 <= j < before.len() && suppressed_by(#[trigger] before[j]) == Some(
                                c,
                            );
                        assert(after[j] == before[j]);
                    }
                    if names_suppress(after, c) {
                        let j = choose|j: int|
                            0 <= j < after.len() && suppressed_by(#[trigger] after[j]) == Some(c);
                        if j < i {
                            assert(before[j] == after[j]);
                        }
                    }
                }
            }
            i += 1;
        }
        proof {
            let all = name_views(names@);
            assert(all.subrange(0, i as int) =~= all);
            assert(options.suppresses(Capability::Display) == names_suppress(
                all,
                Capability::Display,
            ));
            assert(options.suppresses(Capability::Equality) == names_suppress(
                all,
                Capability::Equality,
            ));
            assert(options.suppresses(Capability::Order) == names_suppress(
                all,
                Capability::Order,
            ));
            assert(options.suppresses(Capability::Hashing) == names_suppress(
                all,
                Capability::Hashing,
            ));
            assert(options.suppresses(Capability::Duplication) == names_suppress(
                all,
                Capability::Duplication,
            ));
            assert(options.suppresses(Capability::Serialization) == names_suppress(
                all,
                Capability::Serialization,
            ));
        }
        options
    }
}

/// Without options every capability is present.
pub proof fn lemma_default_is_every_capability()
    ensures
        resolved(Mode::Generic, options_of(Seq::empty())) == CapabilitySet::full(),
{
}

/// Reading one more option name removes the capability that the name
/// suppresses and no other; a name that is not recognized removes none.
pub proof fn lemma_option_removes_exactly_one(
    options: SuppressionOptions,
    name: Seq<char>,
    c: Capability,
)
    ensures
        resolved(Mode::Generic, options.with_name(name)).has(c) == (resolved(
            Mode::Generic,
            options,
        ).has(c) && suppressed_by(name) != Some(c)),
{
}

/// In string-specialized mode the options change nothing.
pub proof fn lemma_string_mode_resolves_to_all(options: SuppressionOptions)
    ensures
        resolved(Mode::StringSpecialized, options) == CapabilitySet::full(),
        forall|c: Capability| resolved(Mode::StringSpecialized, options).has(c),
{
}

/// Resolves the options of a declaration to the capabilities to emit.
///
/// In generic mode a capability is present unless its option stands; the
/// six flags are independent of one another. In string-specialized mode the
/// options are not consulted and every capability is present.
pub fn resolve(mode: Mode, options: SuppressionOptions) -> (caps: CapabilitySet)
    ensures
        caps == resolved(mode, options),
        mode == Mode::StringSpecialized ==> caps == CapabilitySet::full(),
        mode == Mode::Generic ==> forall|c: Capability| caps.has(c) == !options.suppresses(c),
{
    match mode {
        Mode::StringSpecialized => CapabilitySet::all(),
        Mode::Generic => CapabilitySet {
            display: !options.no_display,
            equality: !options.no_eq,
            order: !options.no_ord,
            hashing: !options.no_hash,
            duplication: !options.no_clone,
            serialization: !options.no_serde,
        },
    }
}

} // verus!
