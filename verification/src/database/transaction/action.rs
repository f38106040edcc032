//! The kinds of action a transaction can record, and their monetary legs.
use vstd::prelude::*;
use vstd::std_specs::cmp::PartialEqSpecImpl;
use crate::amount::Amount;
use crate::database::asset::id::AssetId;
use crate::database::asset::id::AssetIdView;
use crate::error::LedgerError;

verus! {

/// What a transaction did. Each case carries its legs as pairs of an amount and the asset
/// the amount is counted in.
#[derive(Debug)]
pub enum TxnAction {
    /// Cash that came into the account from outside.
    Deposit { value: (Amount, AssetId), fee: (Amount, AssetId) },
    /// Cash that left the account.
    Withdrawal { value: (Amount, AssetId), fee: (Amount, AssetId) },
    /// Income booked in the account, with the reason in words.
    Income { value: (Amount, AssetId), reason: String },
    /// A fee booked in the account, with the reason in words.
    Fee { value: (Amount, AssetId), reason: String },
    /// An asset bought for cash.
    Buy { asset: (Amount, AssetId), cash: (Amount, AssetId), fee: (Amount, AssetId) },
    /// An asset sold for cash.
    Sell { asset: (Amount, AssetId), cash: (Amount, AssetId), fee: (Amount, AssetId) },
    /// A dividend paid by `source`.
    Dividend { source: AssetId, value: (Amount, AssetId), fee: (Amount, AssetId) },
    /// A holding moved from one asset identity to another, without a value of its own.
    Journal { source: AssetId, target: AssetId, fee: (Amount, AssetId) },
}

/// What a [`TxnAction`] is, with its texts as sequences of characters.
pub enum TxnActionView {
    Deposit { value: (Amount, AssetIdView), fee: (Amount, AssetIdView) },
    Withdrawal { value: (Amount, AssetIdView), fee: (Amount, AssetIdView) },
    Income { value: (Amount, AssetIdView), reason: Seq<char> },
    Fee { value: (Amount, AssetIdView), reason: Seq<char> },
    Buy { asset: (Amount, AssetIdView), cash: (Amount, AssetIdView), fee: (Amount, AssetIdView) },
    Sell { asset: (Amount, AssetIdView), cash: (Amount, AssetIdView), fee: (Amount, AssetIdView) },
    Dividend { source: AssetIdView, value: (Amount, AssetIdView), fee: (Amount, AssetIdView) },
    Journal { source: AssetIdView, target: AssetIdView, fee: (Amount, AssetIdView) },
}

/// An amount with the asset it is counted in, as a value of specifications.
pub open spec fn value_view(value: (Amount, AssetId)) -> (Amount, AssetIdView) {
    (value.0, value.1@)
}

impl View for TxnAction {
    type V = TxnActionView;

    open spec fn view(&self) -> TxnActionView {
        match self {
            TxnAction::Deposit { value, fee } => TxnActionView::Deposit {
                value: value_view(*value),
                fee: value_view(*fee),
            },
            TxnAction::Withdrawal { value, fee } => TxnActionView::Withdrawal {
                value: value_view(*value),
                fee: value_view(*fee),
            },
            TxnAction::Income { value, reason } => TxnActionView::Income {
                value: value_view(*value),
                reason: reason@,
            },
            TxnAction::Fee { value, reason } => TxnActionView::Fee {
                value: value_view(*value),
                reason: reason@,
            },
            TxnAction::Buy { asset, cash, fee } => TxnActionView::Buy {
                asset: value_view(*asset),
                cash: value_view(*cash),
                fee: value_view(*fee),
            },
            TxnAction::Sell { asset, cash, fee } => TxnActionView::Sell {
                asset: value_view(*asset),
                cash: value_view(*cash),
                fee: value_view(*fee),
            },
            TxnAction::Dividend { source, value, fee } => TxnActionView::Dividend {
                source: source@,
                value: value_view(*value),
                fee: value_view(*fee),
            },
            TxnAction::Journal { source, target, fee } => TxnActionView::Journal {
                source: source@,
                target: target@,
                fee: value_view(*fee),
            },
        }
    }
}

/// The name of a case of [`TxnAction`], without its payload.
#[derive(Debug, PartialEq, Eq, Clone, Copy, Structural)]
pub enum ActionKind {
    Deposit,
    Withdrawal,
    Income,
    Fee,
    Buy,
    Sell,
    Dividend,
    Journal,
}

impl ActionKind {
    /// The tag under which the case is written down.
    pub open spec fn name(self) -> Seq<char> {
        match self {
            ActionKind::Deposit => "Deposit"@,
            ActionKind::Withdrawal => "Withdrawal"@,
            ActionKind::Income => "Income"@,
            ActionKind::Fee => "Fee"@,
            ActionKind::Buy => "Buy"@,
            ActionKind::Sell => "Sell"@,
            ActionKind::Dividend => "Dividend"@,
            ActionKind::Journal => "Journal"@,
        }
    }

    /// The case that a tag names, if it names one.
    pub open spec fn parse(tag: Seq<char>) -> Option<ActionKind> {
        if tag == "Deposit"@ {
            Some(ActionKind::Deposit)
        } else if tag == "Withdrawal"@ {
            Some(ActionKind::Withdrawal)
        } else if tag == "Income"@ {
            Some(ActionKind::Income)
        } else if tag == "Fee"@ {
            Some(ActionKind::Fee)
        } else if tag == "Buy"@ {
            Some(ActionKind::Buy)
        } else if tag == "Sell"@ {
            Some(ActionKind::Sell)
        } else if tag == "Dividend"@ {
            Some(ActionKind::Dividend)
        } else if tag == "Journal"@ {
            Some(ActionKind::Journal)
        } else {
            None
        }
    }

    /// The tag of the case.
    pub fn tag(self) -> (r: &'static str)
        ensures
            r@ == self.name(),
    {
        match self {
            ActionKind::Deposit => "Deposit",
            ActionKind::Withdrawal => "Withdrawal",
            ActionKind::Income => "Income",
            ActionKind::Fee => "Fee",
            ActionKind::Buy => "Buy",
            ActionKind::Sell => "Sell",
            ActionKind::Dividend => "Dividend",
            ActionKind::Journal => "Journal",
        }
    }

    /// Reads a tag. A tag that names no case fails with `ParseError`; none is taken for
    /// another.
    pub fn from_tag(tag: &str) -> (r: Result<ActionKind, LedgerError>)
        ensures
            match r {
                Ok(kind) => ActionKind::parse(tag@) == Some(kind),
                Err(e) => ActionKind::parse(tag@).is_none() && e == LedgerError::ParseError,
            },
    {
        let text = String::from_str(tag);
        if text == String::from_str("Deposit") {
            Ok(ActionKind::Deposit)
        } else if text == String::from_str("Withdrawal") {
            Ok(ActionKind::Withdrawal)
        } else if text == String::from_str("Income") {
            Ok(ActionKind::Income)
        } else if text == String::from_str("Fee") {
            Ok(ActionKind::Fee)
        } else if text == String::from_str("Buy") {
            Ok(ActionKind::Buy)
        } else if text == String::from_str("Sell") {
            Ok(ActionKind::Sell)
        } else if text == String::from_str("Dividend") {
            Ok(ActionKind::Dividend)
        } else if text == String::from_str("Journal") {
            Ok(ActionKind::Journal)
        } else {
            Err(LedgerError::ParseError)
        }
    }
}

/// The tag of every case reads back as that case.
pub proof fn lemma_action_tag_round_trip(kind: ActionKind)
    ensures
        ActionKind::parse(kind.name()) == Some(kind),
{
    reveal_strlit("Deposit");
    reveal_strlit("Withdrawal");
    reveal_strlit("Income");
    reveal_strlit("Fee");
    reveal_strlit("Buy");
    reveal_strlit("Sell");
    reveal_strlit("Dividend");
    reveal_strlit("Journal");
    assert("Deposit"@[1] == 'e');
    assert("Withdrawal"@[0] == 'W');
    assert("Income"@[0] == 'I');
    assert("Fee"@[0] == 'F');
    assert("Buy"@[0] == 'B');
    assert("Sell"@[0] == 'S');
    assert("Dividend"@[1] == 'i');
    assert("Journal"@[0] == 'J');
}

/// The part that a leg plays in its action.
#[derive(Debug, PartialEq, Eq, Clone, Copy, Structural)]
pub enum LegRole {
    /// The value that the action moves or books.
    Value,
    /// What the action cost.
    Fee,
    /// The asset side of a purchase or sale.
    Asset,
    /// The cash side of a purchase or sale.
    Cash,
    /// The asset that something comes from.
    Source,
    /// The asset that something goes to.
    Target,
}

/// One leg of an action: an asset, the part it plays, and the amount where the action
/// gives one. The source and target of an action are named without an amount.
#[derive(Debug)]
pub struct Leg {
    pub amount: Option<Amount>,
    pub asset: AssetId,
    pub role: LegRole,
}

/// What a [`Leg`] is, as a value of specifications.
pub struct LegView {
    pub amount: Option<Amount>,
    pub asset: AssetIdView,
    pub role: LegRole,
}

impl View for Leg {
    type V = LegView;

    open spec fn view(&self) -> LegView {
        LegView { amount: self.amount, asset: self.asset@, role: self.role }
    }
}

/// The leg that a pair of amount and asset makes in the given role.
pub open spec fn valued_leg(value: (Amount, AssetIdView), role: LegRole) -> LegView {
    LegView { amount: Some(value.0), asset: value.1, role }
}

/// The leg that an asset without an amount makes in the given role.
pub open spec fn named_leg(asset: AssetIdView, role: LegRole) -> LegView {
    LegView { amount: None, asset, role }
}

/// The legs as values of specifications, in their order.
pub open spec fn leg_views(legs: Seq<Leg>) -> Seq<LegView> {
    legs.map_values(|leg: Leg| leg@)
}

impl TxnActionView {
    /// Which case the action is.
    pub open spec fn kind(self) -> ActionKind {
        match self {
            TxnActionView::Deposit { .. } => ActionKind::Deposit,
            TxnActionView::Withdrawal { .. } => ActionKind::Withdrawal,
            TxnActionView::Income { .. } => ActionKind::Income,
            TxnActionView::Fee { .. } => ActionKind::Fee,
            TxnActionView::Buy { .. } => ActionKind::Buy,
            TxnActionView::Sell { .. } => ActionKind::Sell,
            TxnActionView::Dividend { .. } => ActionKind::Dividend,
            TxnActionView::Journal { .. } => ActionKind::Journal,
        }
    }

    /// The legs of the action, in the order in which the case names them.
    pub open spec fn legs(self) -> Seq<LegView> {
        match self {
            TxnActionView::Deposit { value, fee } => seq![
                valued_leg(value, LegRole::Value),
                valued_leg(fee, LegRole::Fee),
            ],
            TxnActionView::Withdrawal { value, fee } => seq![
                valued_leg(value, LegRole::Value),
                valued_leg(fee, LegRole::Fee),
            ],
            TxnActionView::Income { value, reason } => seq![valued_leg(value, LegRole::Value)],
            TxnActionView::Fee { value, reason } => seq![valued_leg(value, LegRole::Value)],
            TxnActionView::Buy { asset, cash, fee } => seq![
                valued_leg(asset, LegRole::Asset),
                valued_leg(cash, LegRole::Cash),
                valued_leg(fee, LegRole::Fee),
            ],
            TxnActionView::Sell { asset, cash, fee } => seq![
                valued_leg(asset, LegRole::Asset),
                valued_leg(cash, LegRole::Cash),
                valued_leg(fee, LegRole::Fee),
            ],
            TxnActionView::Dividend { source, value, fee } => seq![
                named_leg(source, LegRole::Source),
                valued_leg(value, LegRole::Value),
                valued_leg(fee, LegRole::Fee),
            ],
            TxnActionView::Journal { source, target, fee } => seq![
                named_leg(source, LegRole::Source),
                named_leg(target, LegRole::Target),
                valued_leg(fee, LegRole::Fee),
            ],
        }
    }

    /// The asset in which the action moves cash into or out of the account: the asset of
    /// the value of a deposit or of a withdrawal. No other action moves cash in this sense.
    pub open spec fn cash_movement(self) -> Option<AssetIdView> {
        match self {
            TxnActionView::Deposit { value, fee } => Some(value.1),
            TxnActionView::Withdrawal { value, fee } => Some(value.1),
            _ => None,
        }
    }
}

/// Copies a pair of amount and asset.
fn clone_value(value: &(Amount, AssetId)) -> (r: (Amount, AssetId))
    ensures
        value_view(r) == value_view(*value),
{
    (value.0, value.1.clone())
}

/// Whether two pairs of amount and asset are the same.
fn same_value(a: &(Amount, AssetId), b: &(Amount, AssetId)) -> (r: bool)
    ensures
        r == (value_view(*a) == value_view(*b)),
{
    a.0 == b.0 && a.1 == b.1
}

/// Makes the leg of a pair of amount and asset.
fn leg_of(value: &(Amount, AssetId), role: LegRole) -> (r: Leg)
    ensures
        r@ == valued_leg(value_view(*value), role),
{
    Leg { amount: Some(value.0), asset: value.1.clone(), role }
}

/// Makes the leg of an asset without an amount.
fn leg_named(asset: &AssetId, role: LegRole) -> (r: Leg)
    ensures
        r@ == named_leg(asset@, role),
{
    Leg { amount: None, asset: asset.clone(), role }
}

impl Clone for TxnAction {
    fn clone(&self) -> (r: Self)
        ensures
            r@ == self@,
    {
        match self {
            TxnAction::Deposit { value, fee } => TxnAction::Deposit {
                value: clone_value(value),
                fee: clone_value(fee),
            },
            TxnAction::Withdrawal { value, fee } => TxnAction::Withdrawal {
                value: clone_value(value),
                fee: clone_value(fee),
            },
            TxnAction::Income { value, reason } => TxnAction::Income {
                value: clone_value(value),
                reason: reason.clone(),
            },
            TxnAction::Fee { value, reason } => TxnAction::Fee {
                value: clone_value(value),
                reason: reason.clone(),
            },
            TxnAction::Buy { asset, cash, fee } => TxnAction::Buy {
                asset: clone_value(asset),
                cash: clone_value(cash),
                fee: clone_value(fee),
            },
            TxnAction::Sell { asset, cash, fee } => TxnAction::Sell {
                asset: clone_value(asset),
                cash: clone_value(cash),
                fee: clone_value(fee),
            },
            TxnAction::Dividend { source, value, fee } => TxnAction::Dividend {
                source: source.clone(),
                value: clone_value(value),
                fee: clone_value(fee),
            },
            TxnAction::Journal { source, target, fee } => TxnAction::Journal {
                source: source.clone(),
                target: target.clone(),
                fee: clone_value(fee),
            },
        }
    }
}

impl PartialEq for TxnAction {
    fn eq(&self, other: &Self) -> (r: bool) {
        match self {
            TxnAction::Deposit { value, fee } => match other {
                TxnAction::Deposit { value: v, fee: f } => same_value(value, v) && same_value(
                    fee,
                    f,
                ),
                _ => false,
            },
            TxnAction::Withdrawal { value, fee } => match other {
                TxnAction::Withdrawal { value: v, fee: f } => same_value(value, v) && same_value(
                    fee,
                    f,
                ),
                _ => false,
            },
            TxnAction::Income { value, reason } => match other {
                TxnAction::Income { value: v, reason: w } => same_value(value, v) && *reason
                    == *w,
                _ => false,
            },
            TxnAction::Fee { value, reason } => match other {
                TxnAction::Fee { value: v, reason: w } => same_value(value, v) && *reason == *w,
                _ => false,
            },
            TxnAction::Buy { asset, cash, fee } => match other {
                TxnAction::Buy { asset: a, cash: c, fee: f } => same_value(asset, a)
                    && same_value(cash, c) && same_value(fee, f),
                _ => false,
            },
            TxnAction::Sell { asset, cash, fee } => match other {
                TxnAction::Sell { asset: a, cash: c, fee: f } => same_value(asset, a)
                    && same_value(cash, c) && same_value(fee, f),
                _ => false,
            },
            TxnAction::Dividend { source, value, fee } => match other {
                TxnAction::Dividend { source: s, value: v, fee: f } => *source == *s
                    && same_value(value, v) && same_value(fee, f),
                _ => false,
            },
            TxnAction::Journal { source, target, fee } => match other {
                TxnAction::Journal { source: s, target: t, fee: f } => *source == *s && *target
                    == *t && same_value(fee, f),
                _ => false,
            },
        }
    }
}

impl Eq for TxnAction {

}

impl PartialEqSpecImpl for TxnAction {
    open spec fn obeys_eq_spec() -> bool {
        true
    }

    open spec fn eq_spec(&self, other: &Self) -> bool {
        self@ == other@
    }
}

impl TxnAction {
    /// Which case the action is.
    pub fn kind(&self) -> (r: ActionKind)
        ensures
            r == self@.kind(),
    {
        match self {
            TxnAction::Deposit { .. } => ActionKind::Deposit,
            TxnAction::Withdrawal { .. } => ActionKind::Withdrawal,
            TxnAction::Income { .. } => ActionKind::Income,
            TxnAction::Fee { .. } => ActionKind::Fee,
            TxnAction::Buy { .. } => ActionKind::Buy,
            TxnAction::Sell { .. } => ActionKind::Sell,
            TxnAction::Dividend { .. } => ActionKind::Dividend,
            TxnAction::Journal { .. } => ActionKind::Journal,
        }
    }

    /// The legs of the action, in the order in which the case names them.
    pub fn legs(&self) -> (r: Vec<Leg>)
        ensures
            leg_views(r@) == self@.legs(),
    {
        let mut legs: Vec<Leg> = Vec::new();
        match self {
            TxnAction::Deposit { value, fee } => {
                legs.push(leg_of(value, LegRole::Value));
                legs.push(leg_of(fee, LegRole::Fee));
            },
            TxnAction::Withdrawal { value, fee } => {
                legs.push(leg_of(value, LegRole::Value));
                legs.push(leg_of(fee, LegRole::Fee));
            },
            TxnAction::Income { value, reason } => {
                legs.push(leg_of(value, LegRole::Value));
            },
            TxnAction::Fee { value, reason } => {
                legs.push(leg_of(value, LegRole::Value));
            },
            TxnAction::Buy { asset, cash, fee } => {
                legs.push(leg_of(asset, LegRole::Asset));
                legs.push(leg_of(cash, LegRole::Cash));
                legs.push(leg_of(fee, LegRole::Fee));
            },
            TxnAction::Sell { asset, cash, fee } => {
                legs.push(leg_of(asset, LegRole::Asset));
                legs.push(leg_of(cash, LegRole::Cash));
                legs.push(leg_of(fee, LegRole::Fee));
            },
            TxnAction::Dividend { source, value, fee } => {
                legs.push(leg_named(source, LegRole::Source));
                legs.push(leg_of(value, LegRole::Value));
                legs.push(leg_of(fee, LegRole::Fee));
            },
            TxnAction::Journal { source, target, fee } => {
                legs.push(leg_named(source, LegRole::Source));
                legs.push(leg_named(target, LegRole::Target));
                legs.push(leg_of(fee, LegRole::Fee));
            },
        }
        assert(leg_views(legs@) =~= self@.legs());
        legs
    }
}

} // verus!
