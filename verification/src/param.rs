//! Search-space parameter definitions: named inclusive ranges, their validation and lookup.
//!
//! The bound type of float parameters is a type parameter `F`: the library never
//! inspects float bounds itself; the caller supplies the check of a float range.

use vstd::prelude::*;
use vstd::string::StringExecFns;

use crate::text::same_text;

verus! {

/// A single sampled parameter kind and its inclusive range.
#[allow(inconsistent_fields)]
#[derive(Clone, Copy, Debug, PartialEq)]
pub enum ParamKind<F> {
    Int { min: i64, max: i64 },
    Float { min: F, max: F },
}

/// A named parameter in the search space.
#[derive(Clone, Debug, PartialEq)]
pub struct ParamSpec<F> {
    pub name: String,
    pub kind: ParamKind<F>,
}

/// The full search space of an optimization run.
pub struct SearchSpace<F> {
    pub params: Vec<ParamSpec<F>>,
}

/// Why a float range is invalid.
#[derive(Clone, Copy, Debug, PartialEq, Eq, Structural)]
pub enum FloatFault {
    /// A bound is NaN or infinite.
    NotFinite,
    /// The lower bound exceeds the upper bound.
    MinExceedsMax,
}

/// Why a parameter range is invalid.
#[derive(Clone, Copy, Debug, PartialEq, Eq, Structural)]
pub enum RangeFault {
    /// An int range whose `min` exceeds its `max`.
    IntMinExceedsMax,
    /// A float range rejected by the float check.
    Float(FloatFault),
}

/// The first problem found in a search space.
#[derive(Clone, Copy, Debug, PartialEq, Eq, Structural)]
pub enum SpaceError {
    /// `params[index]` has a name the strategy does not know.
    UnknownParam { index: usize },
    /// `params[index]` has an invalid range.
    InvalidRange { index: usize, fault: RangeFault },
}

/// Why a parameter cannot be sampled.
#[derive(Clone, Copy, Debug, PartialEq, Eq, Structural)]
pub enum SuggestError {
    /// No parameter of that name in the search space.
    Missing,
    /// The parameter is declared as a float where an int is needed.
    NotInt,
    /// The parameter is declared as an int where a float is needed.
    NotFloat,
}

impl SuggestError {
    /// The error text for parameter `name`.
    pub fn message(&self, name: &str) -> (m: String)
        ensures
            m@ == match *self {
                SuggestError::Missing => "missing param `"@ + name@ + "` in [optimize.params]"@,
                SuggestError::NotInt => "param `"@ + name@ + "` must be declared as `type = \"int\"`"@,
                SuggestError::NotFloat => "param `"@ + name@
                    + "` must be declared as `type = \"float\"`"@,
            },
    {
        match *self {
            SuggestError::Missing => String::from_str("missing param `").concat(name).concat(
                "` in [optimize.params]",
            ),
            SuggestError::NotInt => String::from_str("param `").concat(name).concat(
                "` must be declared as `type = \"int\"`",
            ),
            SuggestError::NotFloat => String::from_str("param `").concat(name).concat(
                "` must be declared as `type = \"float\"`",
            ),
        }
    }
}

/// Whether `kind` passes validation, the float check `check` accepting float ranges.
pub open spec fn kind_passes<F, C: Fn(F, F) -> Option<FloatFault>>(
    kind: ParamKind<F>,
    check: C,
) -> bool {
    match kind {
        ParamKind::Int { min, max } => min <= max,
        ParamKind::Float { min, max } => call_ensures(check, (min, max), None::<FloatFault>),
    }
}

/// Whether `kind` fails validation with `fault`.
pub open spec fn kind_fails<F, C: Fn(F, F) -> Option<FloatFault>>(
    kind: ParamKind<F>,
    check: C,
    fault: RangeFault,
) -> bool {
    match kind {
        ParamKind::Int { min, max } => min > max && fault == RangeFault::IntMinExceedsMax,
        ParamKind::Float { min, max } => match fault {
            RangeFault::Float(f) => call_ensures(check, (min, max), Some(f)),
            RangeFault::IntMinExceedsMax => false,
        },
    }
}

/// Whether every possible answer of `check` accepts `kind`'s range.
pub open spec fn kind_accepted<F, C: Fn(F, F) -> Option<FloatFault>>(kind: ParamKind<F>, check: C) -> bool {
    match kind {
        ParamKind::Int { min, max } => min <= max,
        ParamKind::Float { min, max } => forall|v: Option<FloatFault>|
            #[trigger] call_ensures(check, (min, max), v) ==> v is None,
    }
}

/// Whether `name` is among the `known` parameter names.
pub open spec fn name_known(known: Seq<&str>, name: Seq<char>) -> bool {
    exists|j: int| 0 <= j < known.len() && known[j]@ == name
}

/// Whether `spec` has a known name and a valid range.
pub open spec fn spec_passes<F, C: Fn(F, F) -> Option<FloatFault>>(
    spec: ParamSpec<F>,
    known: Seq<&str>,
    check: C,
) -> bool {
    name_known(known, spec.name@) && kind_passes(spec.kind, check)
}

impl<F: Copy> ParamKind<F> {
    /// Validates the range: an int range needs `min <= max`; a float range is
    /// judged by `check_float`.
    pub fn validate<C: Fn(F, F) -> Option<FloatFault>>(&self, check_float: C) -> (r: Result<
        (),
        RangeFault,
    >)
        requires
            forall|a: F, b: F| call_requires(check_float, (a, b)),
        ensures
            r is Ok ==> kind_passes(*self, check_float),
            r matches Err(fault) ==> kind_fails(*self, check_float, fault),
            kind_accepted(*self, check_float) ==> r is Ok,
    {
        match self {
            ParamKind::Int { min, max } => {
                if *min > *max {
                    Err(RangeFault::IntMinExceedsMax)
                } else {
                    Ok(())
                }
            },
            ParamKind::Float { min, max } => {
                match check_float(*min, *max) {
                    None => Ok(()),
                    Some(f) => Err(RangeFault::Float(f)),
                }
            },
        }
    }
}

/// Whether some entry of `known` reads `name`.
pub fn is_known(known: &[&str], name: &str) -> (r: bool)
    ensures
        r == name_known(known@, name@),
{
    let mut j: usize = 0;
    while j < known.len()
        invariant
            j <= known@.len(),
            forall|i: int| 0 <= i < j ==> known@[i]@ != name@,
        decreases known@.len() - j,
    {
        if same_text(known[j], name) {
            return true;
        }
        j = j + 1;
    }
    false
}

impl<F> SearchSpace<F> {
    /// The first parameter named `name`, if any.
    pub fn get(&self, name: &str) -> (r: Option<&ParamSpec<F>>)
        ensures
            match r {
                Some(spec) => exists|i: int|
                    0 <= i < self.params@.len() && self.params@[i] == *spec
                        && self.params@[i].name@ == name@ && (forall|j: int|
                        0 <= j < i ==> self.params@[j].name@ != name@),
                None => forall|i: int| 0 <= i < self.params@.len() ==> self.params@[i].name@ != name@,
            },
    {
        let mut i: usize = 0;
        while i < self.params.len()
            invariant
                i <= self.params@.len(),
                forall|j: int| 0 <= j < i ==> self.params@[j].name@ != name@,
            decreases self.params@.len() - i,
        {
            if same_text(self.params[i].name.as_str(), name) {
                return Some(&self.params[i]);
            }
            i = i + 1;
        }
        None
    }

}

impl<F: Copy> SearchSpace<F> {
    /// Checks, in order, that every parameter has a known name and a valid range;
    /// reports the first parameter that fails.
    pub fn validate<C: Fn(F, F) -> Option<FloatFault>>(
        &self,
        known: &[&str],
        check_float: &C,
    ) -> (r: Result<(), SpaceError>)
        requires
            forall|a: F, b: F| call_requires(check_float, (a, b)),
        ensures
            match r {
                Ok(()) => forall|i: int|
                    0 <= i < self.params@.len() ==> spec_passes(
                        self.params@[i],
                        known@,
                        check_float,
                    ),
                Err(SpaceError::UnknownParam { index }) => {
                    &&& index < self.params@.len()
                    &&& !name_known(known@, self.params@[index as int].name@)
                    &&& forall|j: int|
                        0 <= j < index ==> spec_passes(self.params@[j], known@, check_float)
                },
                Err(SpaceError::InvalidRange { index, fault }) => {
                    &&& index < self.params@.len()
                    &&& name_known(known@, self.params@[index as int].name@)
                    &&& kind_fails(self.params@[index as int].kind, check_float, fault)
                    &&& forall|j: int|
                        0 <= j < index ==> spec_passes(self.params@[j], known@, check_float)
                },
            },
            (forall|i: int|
                0 <= i < self.params@.len() ==> name_known(known@, self.params@[i].name@)
                    && kind_accepted(self.params@[i].kind, check_float)) ==> r is Ok,
    {
        let mut i: usize = 0;
        while i < self.params.len()
            invariant
                i <= self.params@.len(),
                forall|a: F, b: F| call_requires(check_float, (a, b)),
                forall|j: int| 0 <= j < i ==> spec_passes(self.params@[j], known@, check_float),
            decreases self.params@.len() - i,
        {
            let spec = &self.params[i];
            if !is_known(known, spec.name.as_str()) {
                return Err(SpaceError::UnknownParam { index: i });
            }
            match spec.kind.validate(check_float) {
                Ok(()) => {},
                Err(fault) => {
                    return Err(SpaceError::InvalidRange { index: i, fault });
                },
            }
            i = i + 1;
        }
        Ok(())
    }
}

/// The declared range of int parameter `name`: what `suggest_int` samples from.
pub fn int_bounds<F>(space: &SearchSpace<F>, name: &str) -> (r: Result<(i64, i64), SuggestError>)
    ensures
        match r {
            Ok((min, max)) => exists|i: int|
                0 <= i < space.params@.len() && space.params@[i].name@ == name@ && space.params@[i].kind
                    == ParamKind::<F>::Int { min, max } && (forall|j: int|
                    0 <= j < i ==> space.params@[j].name@ != name@),
            Err(SuggestError::Missing) => forall|i: int|
                0 <= i < space.params@.len() ==> space.params@[i].name@ != name@,
            Err(SuggestError::NotInt) => exists|i: int|
                0 <= i < space.params@.len() && space.params@[i].name@ == name@
                    && space.params@[i].kind is Float && (forall|j: int|
                    0 <= j < i ==> space.params@[j].name@ != name@),
            Err(SuggestError::NotFloat) => false,
        },
{
    match space.get(name) {
        None => Err(SuggestError::Missing),
        Some(spec) => match spec.kind {
            ParamKind::Int { min, max } => Ok((min, max)),
            ParamKind::Float { .. } => Err(SuggestError::NotInt),
        },
    }
}

/// The declared range of float parameter `name`: what `suggest_float` samples from.
pub fn float_bounds<F: Copy>(space: &SearchSpace<F>, name: &str) -> (r: Result<(F, F), SuggestError>)
    ensures
        match r {
            Ok((min, max)) => exists|i: int|
                0 <= i < space.params@.len() && space.params@[i].name@ == name@ && space.params@[i].kind
                    == ParamKind::<F>::Float { min, max } && (forall|j: int|
                    0 <= j < i ==> space.params@[j].name@ != name@),
            Err(SuggestError::Missing) => forall|i: int|
                0 <= i < space.params@.len() ==> space.params@[i].name@ != name@,
            Err(SuggestError::NotFloat) => exists|i: int|
                0 <= i < space.params@.len() && space.params@[i].name@ == name@
                    && space.params@[i].kind is Int && (forall|j: int|
                    0 <= j < i ==> space.params@[j].name@ != name@),
            Err(SuggestError::NotInt) => false,
        },
{
    match space.get(name) {
        None => Err(SuggestError::Missing),
        Some(spec) => match spec.kind {
            ParamKind::Float { min, max } => Ok((min, max)),
            ParamKind::Int { .. } => Err(SuggestError::NotFloat),
        },
    }
}

} // verus!
