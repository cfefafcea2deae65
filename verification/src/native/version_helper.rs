//! The version check: is the running system at least a given version?
//!
//! The question is put as a version block together with a condition mask, a
//! predicate composed of one "greater than or equal" comparison per version
//! component. The operating system holds the answer; this module composes the
//! question, says what the predicate means on any version block, and turns
//! what the system reported into a result that never hides a failure.

use vstd::prelude::*;

verus! {

/// Why the version of the running system could not be established.
#[derive(Debug, Clone, Copy, PartialEq, Eq, Structural)]
pub enum VersionHelperError {
    /// The operating system reported a failure; the value is its error code.
    IoError(i32),
}

pub type VersionHelperResult<T> = Result<T, VersionHelperError>;

/// The error code with which the system's verification primitive says that
/// the running system does not satisfy the question, as opposed to failing.
pub const ERROR_OLD_WIN_VERSION: i32 = 1150;

/// The part of the system's version block that a version query looks at.
#[derive(Debug, Clone, Copy, PartialEq, Eq, Structural)]
pub struct OsVersion {
    pub major: u32,
    pub minor: u32,
    pub sp_major: u16,
}

/// A component of the version block that a comparison can be attached to.
#[derive(Debug, Clone, Copy, PartialEq, Eq, Structural)]
pub enum VersionComponent {
    Major,
    Minor,
    ServicePackMajor,
}

/// A composed predicate: the components that carry a "greater than or equal"
/// comparison.
#[derive(Debug, Clone, Copy, PartialEq, Eq, Structural)]
pub struct ConditionMask {
    pub major: bool,
    pub minor: bool,
    pub sp_major: bool,
}

/// A question about the running system: the required version and the predicate
/// that compares the running system with it.
#[derive(Debug, Clone, Copy, PartialEq, Eq, Structural)]
pub struct VersionQuery {
    pub required: OsVersion,
    pub conditions: ConditionMask,
}

impl ConditionMask {
    /// Whether a version block satisfies the predicate against `required`.
    ///
    /// The compared components are taken most significant first, and the
    /// first one on which the two blocks differ decides; blocks that agree on
    /// every compared component satisfy it.
    pub open spec fn holds(self, required: OsVersion, actual: OsVersion) -> bool {
        if self.major && actual.major != required.major {
            actual.major > required.major
        } else if self.minor && actual.minor != required.minor {
            actual.minor > required.minor
        } else if self.sp_major && actual.sp_major != required.sp_major {
            actual.sp_major > required.sp_major
        } else {
            true
        }
    }

    /// The predicate that compares nothing and therefore always holds.
    pub open spec fn nothing() -> Self {
        ConditionMask { major: false, minor: false, sp_major: false }
    }

    /// The predicate with a comparison on `component` added.
    pub open spec fn with(self, component: VersionComponent) -> Self {
        match component {
            VersionComponent::Major => ConditionMask { major: true, ..self },
            VersionComponent::Minor => ConditionMask { minor: true, ..self },
            VersionComponent::ServicePackMajor => ConditionMask { sp_major: true, ..self },
        }
    }

    /// The predicate that compares nothing and therefore always holds.
    pub fn new() -> (mask: ConditionMask)
        ensures
            mask == Self::nothing(),
    {
        ConditionMask { major: false, minor: false, sp_major: false }
    }

    /// Adds the comparison "greater than or equal" on `component`.
    pub fn at_least(self, component: VersionComponent) -> (mask: ConditionMask)
        ensures
            mask == self.with(component),
    {
        match component {
            VersionComponent::Major => ConditionMask { major: true, ..self },
            VersionComponent::Minor => ConditionMask { minor: true, ..self },
            VersionComponent::ServicePackMajor => ConditionMask { sp_major: true, ..self },
        }
    }

    /// Decides whether `actual` satisfies the predicate against `required`.
    pub fn is_met(&self, required: &OsVersion, actual: &OsVersion) -> (met: bool)
        ensures
            met == self.holds(*required, *actual),
    {
        if self.major && actual.major != required.major {
            actual.major > required.major
        } else if self.minor && actual.minor != required.minor {
            actual.minor > required.minor
        } else if self.sp_major && actual.sp_major != required.sp_major {
            actual.sp_major > required.sp_major
        } else {
            true
        }
    }
}

/// Whether version `(major, minor, sp_major)` of `os` is at least the given
/// one: the triples are compared component by component, the major version
/// first.
pub open spec fn version_at_least(os: OsVersion, major: int, minor: int, sp_major: int) -> bool {
    ||| os.major > major
    ||| os.major == major && os.minor > minor
    ||| os.major == major && os.minor == minor && os.sp_major >= sp_major
}

/// The question "is the running system at least this version": the version
/// as the required one, and a comparison on each of its three components.
pub open spec fn minimum_query(major: u8, minor: u8, sp_major: u16) -> VersionQuery {
    VersionQuery {
        required: OsVersion { major: major as u32, minor: minor as u32, sp_major },
        conditions: ConditionMask::nothing().with(VersionComponent::Major).with(
            VersionComponent::Minor,
        ).with(VersionComponent::ServicePackMajor),
    }
}

/// The answer to a minimum version, given what the system
/// reported: its version block, or the error code of the failed query.
pub open spec fn verification(major: u8, minor: u8, sp_major: u16, report: Result<OsVersion, i32>)
    -> VersionHelperResult<bool> {
    match report {
        Ok(os) => Ok(version_at_least(os, major as int, minor as int, sp_major as int)),
        Err(code) => Err(VersionHelperError::IoError(code)),
    }
}

impl VersionQuery {
    /// Composes the question "is the running system at least this version":
    /// one comparison on each of the three components.
    pub fn minimum(major: u8, minor: u8, sp_major: u16) -> (query: VersionQuery)
        ensures
            query == minimum_query(major, minor, sp_major),
    {
        let conditions = ConditionMask::new().at_least(VersionComponent::Major).at_least(
            VersionComponent::Minor,
        ).at_least(VersionComponent::ServicePackMajor);
        VersionQuery {
            required: OsVersion { major: major as u32, minor: minor as u32, sp_major },
            conditions,
        }
    }

    /// Decides whether a version block satisfies the question.
    pub fn is_met_by(&self, os: &OsVersion) -> (met: bool)
        ensures
            met == self.conditions.holds(self.required, *os),
    {
        self.conditions.is_met(&self.required, os)
    }
}

/// Answers whether the system that gave `report` is at least version
/// `major.minor` with service pack `sp_major`.
///
/// A failed query is handed on with its error code; it is never taken for a
/// system that satisfies the question.
pub fn verify_system_version(
    major: u8,
    minor: u8,
    sp_major: u16,
    report: &Result<OsVersion, i32>,
) -> (result: VersionHelperResult<bool>)
    ensures
        result == verification(major, minor, sp_major, *report),
{
    match report {
        Ok(os) => Ok(VersionQuery::minimum(major, minor, sp_major).is_met_by(os)),
        Err(code) => Err(VersionHelperError::IoError(*code)),
    }
}

/// Answers whether the system that gave `report` is Windows 8 or later.
pub fn is_win8_or_greater(report: &Result<OsVersion, i32>) -> (result: VersionHelperResult<bool>)
    ensures
        result == verification(6, 2, 0, *report),
{
    verify_system_version(6, 2, 0, report)
}

/// What is made of the return value of the system's verification primitive
/// and of the error code it left behind: a true return value means that the
/// system satisfies the question, a false one with the code for an old
/// version that it does not, and a false one with any other code that the
/// primitive failed.
pub open spec fn conclusion(satisfied: bool, last_error: i32) -> VersionHelperResult<bool> {
    if satisfied {
        Ok(true)
    } else if last_error == ERROR_OLD_WIN_VERSION {
        Ok(false)
    } else {
        Err(VersionHelperError::IoError(last_error))
    }
}

/// Turns what the system's verification primitive returned into an answer:
/// `satisfied` is its return value and `last_error` the error code it left
/// behind when that value was false.
pub fn conclude_verification(satisfied: bool, last_error: i32) -> (result: VersionHelperResult<
    bool,
>)
    ensures
        result == conclusion(satisfied, last_error),
{
    if satisfied {
        Ok(true)
    } else if last_error == ERROR_OLD_WIN_VERSION {
        Ok(false)
    } else {
        Err(VersionHelperError::IoError(last_error))
    }
}

/// The question composed for a minimum version is satisfied by exactly the
/// systems whose version is at least that minimum.
pub proof fn lemma_minimum_query_meaning(major: u8, minor: u8, sp_major: u16, os: OsVersion)
    ensures
        minimum_query(major, minor, sp_major).conditions.holds(
            minimum_query(major, minor, sp_major).required,
            os,
        ) == version_at_least(os, major as int, minor as int, sp_major as int),
{
}

/// Every system is at least its own version, and a system that is at least
/// some version is at least every version that is not higher.
pub proof fn lemma_lower_minimum_is_met(
    os: OsVersion,
    major: u8,
    minor: u8,
    sp_major: u16,
    lower_major: u8,
    lower_minor: u8,
    lower_sp_major: u16,
)
    requires
        verification(major, minor, sp_major, Ok(os)) == Ok::<bool, VersionHelperError>(true),
        lower_major < major || (lower_major == major && (lower_minor < minor || (lower_minor
            == minor && lower_sp_major <= sp_major))),
    ensures
        verification(lower_major, lower_minor, lower_sp_major, Ok(os)) == Ok::<
            bool,
            VersionHelperError,
        >(true),
        version_at_least(os, os.major as int, os.minor as int, os.sp_major as int),
{
}

/// A system whose major version is below the required one is refused, and a
/// failed query is answered with its error code, never with a yes.
pub proof fn lemma_refusals(
    report: Result<OsVersion, i32>,
    major: u8,
    minor: u8,
    sp_major: u16,
)
    ensures
        report matches Ok(os) && os.major < major ==> verification(major, minor, sp_major, report)
            == Ok::<bool, VersionHelperError>(false),
        report matches Err(code) ==> verification(major, minor, sp_major, report) == Err::<
            bool,
            VersionHelperError,
        >(VersionHelperError::IoError(code)),
        report is Err ==> verification(major, minor, sp_major, report) != Ok::<
            bool,
            VersionHelperError,
        >(true),
        forall|last_error: i32| conclusion(false, last_error) != Ok::<bool, VersionHelperError>(true),
{
}

} // verus!
