//! The grammar of the traversal macro's input: `setup => { .. }`, `default_cases =>
//! { .. }` and `special_cases => { .. }`, and the members of the setup.
use vstd::prelude::*;

use crate::text::text_eq;

verus! {

/// A member of `setup => { .. }`.
#[derive(Debug, Clone, Copy, PartialEq, Eq, Structural)]
pub enum SetupKey {
    /// `generated_fn_prefix: "..."`
    GeneratedFnPrefix,
    /// `additional_input_type: Type`
    AdditionalInputType,
    /// `system_functions_test: bool`
    SystemFunctionsTest,
}

/// The member a name stands for, if any.
pub open spec fn setup_key_of(name: Seq<char>) -> Option<SetupKey> {
    if name == "generated_fn_prefix"@ {
        Some(SetupKey::GeneratedFnPrefix)
    } else if name == "additional_input_type"@ {
        Some(SetupKey::AdditionalInputType)
    } else if name == "system_functions_test"@ {
        Some(SetupKey::SystemFunctionsTest)
    } else {
        None
    }
}

/// The member a name stands for; the message of an unknown member else.
pub fn setup_key(name: &str) -> (r: Result<SetupKey, String>)
    ensures
        match setup_key_of(name@) {
            Some(k) => r == Ok::<SetupKey, String>(k),
            None => r matches Err(m) && m@ == "Unknown member in setup: "@ + name@,
        },
{
    if text_eq(name, "generated_fn_prefix") {
        Ok(SetupKey::GeneratedFnPrefix)
    } else if text_eq(name, "additional_input_type") {
        Ok(SetupKey::AdditionalInputType)
    } else if text_eq(name, "system_functions_test") {
        Ok(SetupKey::SystemFunctionsTest)
    } else {
        let mut m = String::from_str("Unknown member in setup: ");
        m.append(name);
        Err(m)
    }
}

/// The members of the setup read so far; a later member replaces an earlier one.
pub struct SetupFields<T> {
    pub generated_fn_prefix: Option<String>,
    pub additional_input_type: Option<T>,
    pub system_functions_test: bool,
}

/// The setup of the traversal.
pub struct InputSetup<T> {
    pub generated_fn_prefix: String,
    pub additional_input_type: T,
    pub system_functions_test: bool,
}

impl<T> SetupFields<T> {
    /// No member read yet; the test of system handlers is off.
    pub fn new() -> (r: Self)
        ensures
            r.generated_fn_prefix is None,
            r.additional_input_type is None,
            !r.system_functions_test,
    {
        SetupFields { generated_fn_prefix: None, additional_input_type: None, system_functions_test: false }
    }

    /// The setup, once the prefix and the type of the additional input are known; the
    /// message of the first one missing else.
    pub fn finish(self) -> (r: Result<InputSetup<T>, String>)
        ensures
            match (self.generated_fn_prefix, self.additional_input_type) {
                (Some(p), Some(t)) => r matches Ok(s) && s.generated_fn_prefix == p && s.additional_input_type
                    == t && s.system_functions_test == self.system_functions_test,
                (None, _) => r matches Err(m) && m@
                    == "generated_fn_prefix was not provided inside of setup => {...}"@,
                (Some(_), None) => r matches Err(m) && m@
                    == "additional_input_type was not provided inside of setup => {...}"@,
            },
    {
        match (self.generated_fn_prefix, self.additional_input_type) {
            (Some(p), Some(t)) => Ok(
                InputSetup {
                    generated_fn_prefix: p,
                    additional_input_type: t,
                    system_functions_test: self.system_functions_test,
                },
            ),
            (None, _) => Err(String::from_str("generated_fn_prefix was not provided inside of setup => {...}")),
            (Some(_), None) => Err(
                String::from_str("additional_input_type was not provided inside of setup => {...}"),
            ),
        }
    }
}

/// An arm of the input.
#[derive(Debug, Clone, Copy, PartialEq, Eq, Structural)]
pub enum ArmKind {
    Setup,
    DefaultCases,
    SpecialCases,
}

/// The arm a printed path stands for, if any.
pub open spec fn arm_kind_of(name: Seq<char>) -> Option<ArmKind> {
    if name == "setup"@ {
        Some(ArmKind::Setup)
    } else if name == "default_cases"@ {
        Some(ArmKind::DefaultCases)
    } else if name == "special_cases"@ {
        Some(ArmKind::SpecialCases)
    } else {
        None
    }
}

/// The arm a printed path stands for; the message of an unknown arm else.
pub fn arm_kind(name: &str) -> (r: Result<ArmKind, String>)
    ensures
        match arm_kind_of(name@) {
            Some(k) => r == Ok::<ArmKind, String>(k),
            None => r matches Err(m) && m@ == "Unknown arm: "@ + name@,
        },
{
    if text_eq(name, "setup") {
        Ok(ArmKind::Setup)
    } else if text_eq(name, "default_cases") {
        Ok(ArmKind::DefaultCases)
    } else if text_eq(name, "special_cases") {
        Ok(ArmKind::SpecialCases)
    } else {
        let mut m = String::from_str("Unknown arm: ");
        m.append(name);
        Err(m)
    }
}

/// The arms of the input read so far; a later arm replaces an earlier one.
pub struct InputArms<S, D, P> {
    pub setup: Option<S>,
    pub default_cases: Option<D>,
    pub special_cases: Option<P>,
}

impl<S, D, P> InputArms<S, D, P> {
    /// No arm read yet.
    pub fn new() -> (r: Self)
        ensures
            r.setup is None,
            r.default_cases is None,
            r.special_cases is None,
    {
        InputArms { setup: None, default_cases: None, special_cases: None }
    }

    /// The three arms, once all are known; the message of the first one missing else.
    pub fn finish(self) -> (r: Result<(S, D, P), String>)
        ensures
            match (self.setup, self.default_cases, self.special_cases) {
                (Some(s), Some(d), Some(p)) => r == Ok::<(S, D, P), String>((s, d, p)),
                (None, _, _) => r matches Err(m) && m@
                    == "setup was not provided! Usage: setup => { <generated_fn_prefix, additional_input_type> }"@,
                (Some(_), None, _) => r matches Err(m) && m@
                    == "default_cases was not provided! Usage: default_cases => { <function signatures> }"@,
                (Some(_), Some(_), None) => r matches Err(m) && m@
                    == "special_cases was not provided! Usage: special_cases => { <function signatures> }"@,
            },
    {
        match (self.setup, self.default_cases, self.special_cases) {
            (Some(s), Some(d), Some(p)) => Ok((s, d, p)),
            (None, _, _) => Err(
                String::from_str(
                    "setup was not provided! Usage: setup => { <generated_fn_prefix, additional_input_type> }",
                ),
            ),
            (Some(_), None, _) => Err(
                String::from_str("default_cases was not provided! Usage: default_cases => { <function signatures> }"),
            ),
            (Some(_), Some(_), None) => Err(
                String::from_str("special_cases was not provided! Usage: special_cases => { <function signatures> }"),
            ),
        }
    }
}

/// Each arm of the traversal macro's input is known by its own name, and only by it:
/// `setup` gives the setup, `default_cases` the default cases and `special_cases` the
/// special cases; no other name gives an arm.
pub proof fn law_arm_names(name: Seq<char>)
    ensures
        arm_kind_of(name) == Some(ArmKind::Setup) <==> name == "setup"@,
        arm_kind_of(name) == Some(ArmKind::DefaultCases) <==> name == "default_cases"@,
        arm_kind_of(name) == Some(ArmKind::SpecialCases) <==> name == "special_cases"@,
        arm_kind_of(name) is None <==> (name != "setup"@ && name != "default_cases"@ && name
            != "special_cases"@),
{
    reveal_strlit("setup");
    assert("setup"@.len() == 5);
    reveal_strlit("default_cases");
    assert("default_cases"@.len() == 13);
    reveal_strlit("special_cases");
    assert("special_cases"@.len() == 13);
    assert("default_cases"@[0] != "special_cases"@[0]);
}

/// Each member of the setup is known by its own name, and only by it.
pub proof fn law_setup_member_names(name: Seq<char>)
    ensures
        setup_key_of(name) == Some(SetupKey::GeneratedFnPrefix) <==> name == "generated_fn_prefix"@,
        setup_key_of(name) == Some(SetupKey::AdditionalInputType) <==> name == "additional_input_type"@,
        setup_key_of(name) == Some(SetupKey::SystemFunctionsTest) <==> name == "system_functions_test"@,
{
    reveal_strlit("generated_fn_prefix");
    assert("generated_fn_prefix"@.len() == 19);
    reveal_strlit("additional_input_type");
    assert("additional_input_type"@.len() == 21);
    reveal_strlit("system_functions_test");
    assert("system_functions_test"@.len() == 21);
    assert("additional_input_type"@[0] != "system_functions_test"@[0]);
}

} // verus!
