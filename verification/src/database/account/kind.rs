//! The closed set of account kinds and their textual names.
use vstd::prelude::*;
use vstd::std_specs::convert::FromSpecImpl;
use vstd::std_specs::convert::TryFromSpecImpl;

verus! {

/// Kind of an investment account.
#[derive(Debug, PartialEq, Eq, Clone, Copy, Structural)]
pub enum AccountKind {
    /// Unregistered, taxable account.
    NRA,
    /// Tax-free savings account.
    TFSA,
    /// Registered retirement savings plan.
    RRSP,
    /// First home savings account.
    FHSA,
}

impl AccountKind {
    /// The name under which the kind is written down.
    pub open spec fn name(self) -> Seq<char> {
        match self {
            AccountKind::NRA => "NRA"@,
            AccountKind::TFSA => "TFSA"@,
            AccountKind::RRSP => "RRSP"@,
            AccountKind::FHSA => "FHSA"@,
        }
    }

    /// The kind that a text names, if it names one.
    pub open spec fn parse(text: Seq<char>) -> Option<AccountKind> {
        if text == "NRA"@ {
            Some(AccountKind::NRA)
        } else if text == "TFSA"@ {
            Some(AccountKind::TFSA)
        } else if text == "RRSP"@ {
            Some(AccountKind::RRSP)
        } else if text == "FHSA"@ {
            Some(AccountKind::FHSA)
        } else {
            None
        }
    }

    /// Whether the kind is a registered, tax-advantaged one.
    pub fn is_registered(self) -> (r: bool)
        ensures
            r == (self != AccountKind::NRA),
    {
        match self {
            AccountKind::NRA => false,
            _ => true,
        }
    }
}

impl TryFrom<String> for AccountKind {
    type Error = ();

    fn try_from(value: String) -> (r: Result<Self, ()>)
        ensures
            match r {
                Ok(kind) => AccountKind::parse(value@) == Some(kind),
                Err(_) => AccountKind::parse(value@).is_none(),
            },
    {
        if value == String::from_str("NRA") {
            Ok(AccountKind::NRA)
        } else if value == String::from_str("TFSA") {
            Ok(AccountKind::TFSA)
        } else if value == String::from_str("RRSP") {
            Ok(AccountKind::RRSP)
        } else if value == String::from_str("FHSA") {
            Ok(AccountKind::FHSA)
        } else {
            Err(())
        }
    }
}

impl TryFromSpecImpl<String> for AccountKind {
    open spec fn obeys_try_from_spec() -> bool {
        true
    }

    open spec fn try_from_spec(v: String) -> Result<Self, ()> {
        match AccountKind::parse(v@) {
            Some(k) => Ok(k),
            None => Err(()),
        }
    }
}

impl From<AccountKind> for String {
    fn from(value: AccountKind) -> (r: String)
        ensures
            r@ == value.name(),
    {
        match value {
            AccountKind::NRA => String::from_str("NRA"),
            AccountKind::TFSA => String::from_str("TFSA"),
            AccountKind::RRSP => String::from_str("RRSP"),
            AccountKind::FHSA => String::from_str("FHSA"),
        }
    }
}

impl FromSpecImpl<AccountKind> for String {
    open spec fn obeys_from_spec() -> bool {
        false
    }

    open spec fn from_spec(v: AccountKind) -> String {
        arbitrary()
    }
}

/// Writing a kind down and reading it back gives the same kind.
pub proof fn lemma_kind_round_trip(kind: AccountKind)
    ensures
        AccountKind::parse(kind.name()) == Some(kind),
{
    reveal_strlit("NRA");
    reveal_strlit("TFSA");
    reveal_strlit("RRSP");
    reveal_strlit("FHSA");
    assert("NRA"@.len() == 3);
    assert("TFSA"@[0] == 'T');
    assert("RRSP"@[0] == 'R');
    assert("FHSA"@[0] == 'F');
}

} // verus!
