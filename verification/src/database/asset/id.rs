//! Identifiers of assets and their written form, `<TAG>:<symbol>`.
use vstd::prelude::*;
use vstd::std_specs::cmp::PartialEqSpecImpl;
use vstd::std_specs::convert::FromSpecImpl;
use vstd::std_specs::convert::TryFromSpecImpl;
use crate::error::LedgerError;

verus! {

/// Identifier of anything that can be held or traded.
#[derive(Debug)]
pub enum AssetId {
    /// Stock or ETF, anything tradable through a stock exchange.
    STOCK { exchange: String, ticker: String },
    /// Fiat currency backed by a sovereign state.
    CURRENCY(String),
    /// Crypto currency.
    CRYPTO(String),
    /// Anything else.
    UNKNOWN(String),
}

/// What an [`AssetId`] is, with its texts as sequences of characters.
pub enum AssetIdView {
    Stock { exchange: Seq<char>, ticker: Seq<char> },
    Currency(Seq<char>),
    Crypto(Seq<char>),
    Unknown(Seq<char>),
}

impl View for AssetId {
    type V = AssetIdView;

    open spec fn view(&self) -> AssetIdView {
        match self {
            AssetId::STOCK { exchange, ticker } => AssetIdView::Stock {
                exchange: exchange@,
                ticker: ticker@,
            },
            AssetId::CURRENCY(symbol) => AssetIdView::Currency(symbol@),
            AssetId::CRYPTO(symbol) => AssetIdView::Crypto(symbol@),
            AssetId::UNKNOWN(symbol) => AssetIdView::Unknown(symbol@),
        }
    }
}

impl AssetIdView {
    /// The part that names the kind of asset: what stands before the colon.
    pub open spec fn tag(self) -> Seq<char> {
        match self {
            AssetIdView::Stock { exchange, ticker } => "X"@ + exchange,
            AssetIdView::Currency(_) => "CURRENCY"@,
            AssetIdView::Crypto(_) => "CRYPTO"@,
            AssetIdView::Unknown(_) => "UNKNOWN"@,
        }
    }

    /// The part that names the asset within its kind: what stands behind the colon.
    pub open spec fn symbol(self) -> Seq<char> {
        match self {
            AssetIdView::Stock { exchange, ticker } => ticker,
            AssetIdView::Currency(symbol) => symbol,
            AssetIdView::Crypto(symbol) => symbol,
            AssetIdView::Unknown(symbol) => symbol,
        }
    }

    /// The written form: tag, colon, symbol.
    pub open spec fn serialize(self) -> Seq<char> {
        self.tag() + ":"@ + self.symbol()
    }

    /// Whether reading the written form gives the identifier back. It does unless the
    /// exchange of a stock is empty or holds a colon.
    pub open spec fn round_trips(self) -> bool {
        match self {
            AssetIdView::Stock { exchange, ticker } => exchange.len() > 0 && !exchange.contains(
                ':',
            ),
            _ => true,
        }
    }

    /// Whether no text of the identifier holds a colon and a stock names its exchange.
    pub open spec fn well_formed(self) -> bool {
        &&& self.round_trips()
        &&& !self.symbol().contains(':')
    }
}

/// Whether `i` is the place of the first colon in `text`.
pub open spec fn is_first_colon(text: Seq<char>, i: int) -> bool {
    &&& 0 <= i < text.len()
    &&& text[i] == ':'
    &&& forall|j: int| 0 <= j < i ==> text[j] != ':'
}

/// The place of the first colon in a text that holds one.
pub open spec fn first_colon(text: Seq<char>) -> int {
    choose|i: int| is_first_colon(text, i)
}

/// The identifier that a tag and a symbol name, if the tag is one of the known ones.
pub open spec fn from_parts(tag: Seq<char>, symbol: Seq<char>) -> Option<AssetIdView> {
    if tag == "CURRENCY"@ {
        Some(AssetIdView::Currency(symbol))
    } else if tag == "CRYPTO"@ {
        Some(AssetIdView::Crypto(symbol))
    } else if tag == "UNKNOWN"@ {
        Some(AssetIdView::Unknown(symbol))
    } else if tag.len() >= 2 && tag[0] == 'X' {
        Some(AssetIdView::Stock { exchange: tag.skip(1), ticker: symbol })
    } else {
        None
    }
}

/// The identifier that a text names: the text is split at its first colon into tag and
/// symbol. A text without a colon, or with an unknown tag, names nothing.
pub open spec fn parse(text: Seq<char>) -> Option<AssetIdView> {
    if text.contains(':') {
        let i = first_colon(text);
        from_parts(text.take(i), text.skip(i + 1))
    } else {
        None
    }
}

/// A text has at most one first colon, and has one as soon as it holds a colon.
pub proof fn lemma_first_colon(text: Seq<char>, i: int)
    requires
        is_first_colon(text, i),
    ensures
        text.contains(':'),
        first_colon(text) == i,
{
    let k = first_colon(text);
    assert(is_first_colon(text, k));
    if k < i {
        assert(text[k] != ':');
    }
    if i < k {
        assert(text[i] != ':');
    }
}

/// A text that holds a colon has a first one.
pub proof fn lemma_first_colon_exists(text: Seq<char>, upto: int)
    requires
        0 <= upto < text.len(),
        text[upto] == ':',
    ensures
        is_first_colon(text, first_colon(text)),
        first_colon(text) <= upto,
    decreases upto,
{
    if forall|j: int| 0 <= j < upto ==> text[j] != ':' {
        assert(is_first_colon(text, upto));
        lemma_first_colon(text, upto);
    } else {
        let j = choose|j: int| 0 <= j < upto && text[j] == ':';
        lemma_first_colon_exists(text, j);
    }
}

/// Reading the written form of an identifier gives the identifier back, exactly when the
/// identifier is not a stock whose exchange is empty or holds a colon.
pub proof fn lemma_round_trip(id: AssetIdView)
    ensures
        parse(id.serialize()) == Some(id) <==> id.round_trips(),
{
    reveal_strlit("X");
    reveal_strlit(":");
    reveal_strlit("CURRENCY");
    reveal_strlit("CRYPTO");
    reveal_strlit("UNKNOWN");
    let tag = id.tag();
    let text = id.serialize();
    assert("CURRENCY"@[1] == 'U');
    assert("CRYPTO"@[1] == 'R');
    assert("UNKNOWN"@[0] == 'U');
    assert(":"@[0] == ':');
    assert(text[tag.len() as int] == ':');
    if !tag.contains(':') {
        assert forall|j: int| 0 <= j < tag.len() implies text[j] != ':' by {
            assert(text[j] == tag[j]);
            assert(tag.contains(tag[j]));
        }
        assert(is_first_colon(text, tag.len() as int));
        lemma_first_colon(text, tag.len() as int);
        assert(text.take(tag.len() as int) =~= tag);
        assert(text.skip(tag.len() as int + 1) =~= id.symbol());
        match id {
            AssetIdView::Stock { exchange, ticker } => {
                assert(tag[0] == 'X');
                assert(tag.skip(1) =~= exchange);
                assert(tag.len() == exchange.len() + 1);
                assert(!exchange.contains(':')) by {
                    if exchange.contains(':') {
                        let k = choose|k: int| 0 <= k < exchange.len() && exchange[k] == ':';
                        assert(tag[k + 1] == ':');
                    }
                }
            },
            AssetIdView::Currency(_) => {
                assert(tag[0] == 'C');
            },
            AssetIdView::Crypto(_) => {
                assert(tag[0] == 'C');
            },
            AssetIdView::Unknown(_) => {},
        }
    } else {
        // Only the tag of a stock can hold a colon: it lies in the exchange.
        assert forall|j: int| 0 <= j < "CURRENCY"@.len() implies "CURRENCY"@[j] != ':' by {}
        assert forall|j: int| 0 <= j < "CRYPTO"@.len() implies "CRYPTO"@[j] != ':' by {}
        assert forall|j: int| 0 <= j < "UNKNOWN"@.len() implies "UNKNOWN"@[j] != ':' by {}
        match id {
            AssetIdView::Stock { exchange, ticker } => {
                let k = choose|k: int| 0 <= k < tag.len() && tag[k] == ':';
                assert(tag[0] == 'X');
                assert(exchange[k - 1] == ':');
                assert(exchange.contains(':'));
                assert(text[k] == ':');
                lemma_first_colon_exists(text, k);
                let i = first_colon(text);
                assert(text.contains(':'));
                // The tag that is read back is shorter than the one written.
                if parse(text) == Some(id) {
                    assert(text.take(i).len() == i);
                    assert(text.take(i).skip(1).len() == i - 1);
                    assert(exchange.len() == i - 1);
                }
            },
            _ => {
                let k = choose|k: int| 0 <= k < tag.len() && tag[k] == ':';
                assert(false);
            },
        }
    }
}

impl PartialEq for AssetId {
    fn eq(&self, other: &Self) -> (r: bool) {
        match self {
            AssetId::STOCK { exchange, ticker } => match other {
                AssetId::STOCK { exchange: e, ticker: t } => *exchange == *e && *ticker == *t,
                _ => false,
            },
            AssetId::CURRENCY(symbol) => match other {
                AssetId::CURRENCY(s) => *symbol == *s,
                _ => false,
            },
            AssetId::CRYPTO(symbol) => match other {
                AssetId::CRYPTO(s) => *symbol == *s,
                _ => false,
            },
            AssetId::UNKNOWN(symbol) => match other {
                AssetId::UNKNOWN(s) => *symbol == *s,
                _ => false,
            },
        }
    }
}

impl Eq for AssetId {

}

impl PartialEqSpecImpl for AssetId {
    open spec fn obeys_eq_spec() -> bool {
        true
    }

    open spec fn eq_spec(&self, other: &Self) -> bool {
        self@ == other@
    }
}

impl Clone for AssetId {
    fn clone(&self) -> (r: Self)
        ensures
            r@ == self@,
    {
        match self {
            AssetId::STOCK { exchange, ticker } => AssetId::STOCK {
                exchange: exchange.clone(),
                ticker: ticker.clone(),
            },
            AssetId::CURRENCY(symbol) => AssetId::CURRENCY(symbol.clone()),
            AssetId::CRYPTO(symbol) => AssetId::CRYPTO(symbol.clone()),
            AssetId::UNKNOWN(symbol) => AssetId::UNKNOWN(symbol.clone()),
        }
    }
}

impl AssetId {
    /// The stock or ETF `ticker` as listed on `exchange`.
    pub fn stock(exchange: &str, ticker: &str) -> (r: Self)
        ensures
            r@ == (AssetIdView::Stock { exchange: exchange@, ticker: ticker@ }),
    {
        AssetId::STOCK { exchange: String::from_str(exchange), ticker: String::from_str(ticker) }
    }

    /// The fiat currency `symbol`.
    pub fn currency(symbol: &str) -> (r: Self)
        ensures
            r@ == AssetIdView::Currency(symbol@),
    {
        AssetId::CURRENCY(String::from_str(symbol))
    }

    /// The crypto currency `symbol`.
    pub fn crypto(symbol: &str) -> (r: Self)
        ensures
            r@ == AssetIdView::Crypto(symbol@),
    {
        AssetId::CRYPTO(String::from_str(symbol))
    }

    /// The asset `symbol` of no known kind.
    pub fn unknown(symbol: &str) -> (r: Self)
        ensures
            r@ == AssetIdView::Unknown(symbol@),
    {
        AssetId::UNKNOWN(String::from_str(symbol))
    }

    /// The text behind the colon of the written form: the ticker of a stock, the symbol of
    /// anything else.
    pub fn symbol(&self) -> (r: &str)
        ensures
            r@ == self@.symbol(),
    {
        match self {
            AssetId::STOCK { exchange, ticker } => ticker.as_str(),
            AssetId::CURRENCY(symbol) => symbol.as_str(),
            AssetId::CRYPTO(symbol) => symbol.as_str(),
            AssetId::UNKNOWN(symbol) => symbol.as_str(),
        }
    }

    /// Whether no text of the identifier holds a colon and, for a stock, the exchange is
    /// named. The written form of such an identifier holds its colon between tag and symbol
    /// only, and reads back as the identifier.
    pub fn is_well_formed(&self) -> (r: bool)
        ensures
            r == self@.well_formed(),
    {
        match self {
            AssetId::STOCK { exchange, ticker } => {
                let named = exchange.as_str().unicode_len() > 0;
                named && find_colon(exchange.as_str()).is_none() && find_colon(
                    ticker.as_str(),
                ).is_none()
            },
            AssetId::CURRENCY(symbol) => find_colon(symbol.as_str()).is_none(),
            AssetId::CRYPTO(symbol) => find_colon(symbol.as_str()).is_none(),
            AssetId::UNKNOWN(symbol) => find_colon(symbol.as_str()).is_none(),
        }
    }

    /// The written form, `<TAG>:<symbol>`.
    pub fn serialize(&self) -> (r: String)
        ensures
            r@ == self@.serialize(),
    {
        let tag = match self {
            AssetId::STOCK { exchange, ticker } => String::from_str("X").concat(exchange.as_str()),
            AssetId::CURRENCY(_) => String::from_str("CURRENCY"),
            AssetId::CRYPTO(_) => String::from_str("CRYPTO"),
            AssetId::UNKNOWN(_) => String::from_str("UNKNOWN"),
        };
        tag.concat(":").concat(self.symbol())
    }

    /// Reads the written form of an identifier.
    ///
    /// Fails with `ParseError` exactly when the text holds no colon or when what stands
    /// before its first colon is neither `CURRENCY`, `CRYPTO`, `UNKNOWN` nor an `X` followed
    /// by the name of an exchange.
    pub fn parse(text: &str) -> (r: Result<AssetId, LedgerError>)
        ensures
            match r {
                Ok(id) => self::parse(text@) == Some(id@),
                Err(e) => self::parse(text@).is_none() && e == LedgerError::ParseError,
            },
    {
        let n = text.unicode_len();
        match find_colon(text) {
            None => Err(LedgerError::ParseError),
            Some(i) => {
                proof {
                    lemma_first_colon(text@, i as int);
                }
                let tag = text.substring_char(0, i);
                let symbol = text.substring_char(i + 1, n);
                assert(text@.skip(i as int + 1) == text@.subrange(i as int + 1, n as int));
                let tag_text = String::from_str(tag);
                if tag_text == String::from_str("CURRENCY") {
                    Ok(AssetId::currency(symbol))
                } else if tag_text == String::from_str("CRYPTO") {
                    Ok(AssetId::crypto(symbol))
                } else if tag_text == String::from_str("UNKNOWN") {
                    Ok(AssetId::unknown(symbol))
                } else if i >= 2 && tag.get_char(0) == 'X' {
                    let exchange = tag.substring_char(1, i);
                    assert(tag@.skip(1) == tag@.subrange(1, i as int));
                    Ok(AssetId::stock(exchange, symbol))
                } else {
                    Err(LedgerError::ParseError)
                }
            },
        }
    }
}

/// Whether `text` begins with `prefix`.
pub fn starts_with(text: &str, prefix: &str) -> (r: bool)
    ensures
        r == prefix@.is_prefix_of(text@),
{
    let n = text.unicode_len();
    let m = prefix.unicode_len();
    if m > n {
        return false;
    }
    let head = String::from_str(text.substring_char(0, m));
    head == String::from_str(prefix)
}

/// Finds the first colon of a text.
fn find_colon(text: &str) -> (r: Option<usize>)
    ensures
        match r {
            Some(i) => is_first_colon(text@, i as int),
            None => !text@.contains(':'),
        },
{
    let n = text.unicode_len();
    let mut i: usize = 0;
    while i < n
        invariant
            i <= n,
            n == text@.len(),
            forall|j: int| 0 <= j < i ==> text@[j] != ':',
        decreases n - i,
    {
        if text.get_char(i) == ':' {
            return Some(i);
        }
        i += 1;
    }
    None
}

impl TryFrom<String> for AssetId {
    type Error = ();

    fn try_from(value: String) -> (r: Result<Self, ()>)
        ensures
            match r {
                Ok(id) => parse(value@) == Some(id@),
                Err(_) => parse(value@).is_none(),
            },
    {
        match AssetId::parse(value.as_str()) {
            Ok(id) => Ok(id),
            Err(_) => Err(()),
        }
    }
}

impl TryFromSpecImpl<String> for AssetId {
    open spec fn obeys_try_from_spec() -> bool {
        false
    }

    open spec fn try_from_spec(v: String) -> Result<Self, ()> {
        arbitrary()
    }
}

impl From<AssetId> for String {
    fn from(value: AssetId) -> (r: String)
        ensures
            r@ == value@.serialize(),
    {
        value.serialize()
    }
}

impl FromSpecImpl<AssetId> for String {
    open spec fn obeys_from_spec() -> bool {
        false
    }

    open spec fn from_spec(v: AssetId) -> String {
        arbitrary()
    }
}

} // verus!
