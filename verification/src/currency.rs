use vstd::prelude::*;

use crate::amount::Amount;

verus! {

/// Whether two string slices hold the same characters.
pub fn str_eq(a: &str, b: &str) -> (r: bool)
    ensures
        r == (a@ == b@),
{
    let n = a.unicode_len();
    if n != b.unicode_len() {
        return false;
    }
    let mut i: usize = 0;
    while i < n
        invariant
            n == a@.len(),
            n == b@.len(),
            i <= n,
            forall|j: int| 0 <= j < i ==> a@[j] == b@[j],
        decreases n - i,
    {
        if a.get_char(i) != b.get_char(i) {
            return false;
        }
        i = i + 1;
    }
    assert(a@ =~= b@);
    true
}

/// The currencies the gateway trades.
#[derive(Debug, Clone, Copy, PartialEq, Eq, Structural, Hash)]
pub enum Currency {
    Eth,
    Stq,
    Btc,
    Usd,
    Rub,
}

impl Currency {
    /// The lower-case name of the currency, as stored and displayed.
    pub open spec fn spec_name(self) -> Seq<char> {
        match self {
            Currency::Eth => seq!['e', 't', 'h'],
            Currency::Stq => seq!['s', 't', 'q'],
            Currency::Btc => seq!['b', 't', 'c'],
            Currency::Usd => seq!['u', 's', 'd'],
            Currency::Rub => seq!['r', 'u', 'b'],
        }
    }

    pub fn name(self) -> (r: &'static str)
        ensures
            r@ == self.spec_name(),
    {
        match self {
            Currency::Eth => {
                proof { reveal_strlit("eth"); }
                "eth"
            },
            Currency::Stq => {
                proof { reveal_strlit("stq"); }
                "stq"
            },
            Currency::Btc => {
                proof { reveal_strlit("btc"); }
                "btc"
            },
            Currency::Usd => {
                proof { reveal_strlit("usd"); }
                "usd"
            },
            Currency::Rub => {
                proof { reveal_strlit("rub"); }
                "rub"
            },
        }
    }

    /// The currency whose lower-case name is `s`, if any.
    pub open spec fn parse_name(s: Seq<char>) -> Option<Currency> {
        if s == Currency::Eth.spec_name() {
            Some(Currency::Eth)
        } else if s == Currency::Stq.spec_name() {
            Some(Currency::Stq)
        } else if s == Currency::Btc.spec_name() {
            Some(Currency::Btc)
        } else if s == Currency::Usd.spec_name() {
            Some(Currency::Usd)
        } else if s == Currency::Rub.spec_name() {
            Some(Currency::Rub)
        } else {
            None
        }
    }

    /// Parses the lower-case name of a currency.
    pub fn from_name(s: &str) -> (r: Option<Currency>)
        ensures
            r == Currency::parse_name(s@),
    {
        if str_eq(s, Currency::Eth.name()) {
            Some(Currency::Eth)
        } else if str_eq(s, Currency::Stq.name()) {
            Some(Currency::Stq)
        } else if str_eq(s, Currency::Btc.name()) {
            Some(Currency::Btc)
        } else if str_eq(s, Currency::Usd.name()) {
            Some(Currency::Usd)
        } else if str_eq(s, Currency::Rub.name()) {
            Some(Currency::Rub)
        } else {
            None
        }
    }

    /// The name of the currency as an owned string (what the currency displays as).
    pub fn to_string(&self) -> (r: String)
        ensures
            r@ == self.spec_name(),
    {
        String::from_str(self.name())
    }
}


impl core::str::FromStr for Currency {
    type Err = ();

    fn from_str(s: &str) -> (r: Result<Currency, ()>)
        ensures
            match Currency::parse_name(s@) {
                Some(c) => r == Ok::<Currency, ()>(c),
                None => r == Err::<Currency, ()>(()),
            },
    {
        match Currency::from_name(s) {
            Some(c) => Ok(c),
            None => Err(()),
        }
    }
}

/// Why a stored currency column could not be read back.
#[derive(Debug, PartialEq, Eq)]
pub enum CurrencySqlError {
    /// The column held bytes that name no currency; they are kept.
    Unrecognized(Vec<u8>),
    /// The column was null.
    Null,
}

/// The bytes of a character sequence that is all ASCII.
pub open spec fn ascii_bytes(s: Seq<char>) -> Seq<u8> {
    s.map_values(|c: char| c as u8)
}

impl Currency {
    /// The bytes the currency is stored as: its name in ASCII.
    pub open spec fn spec_sql_bytes(self) -> Seq<u8> {
        ascii_bytes(self.spec_name())
    }

    /// Writes the currency as a column value.
    pub fn to_sql_bytes(self) -> (r: Vec<u8>)
        ensures
            r@ == self.spec_sql_bytes(),
    {
        let r = match self {
            Currency::Eth => vec![101u8, 116u8, 104u8],
            Currency::Stq => vec![115u8, 116u8, 113u8],
            Currency::Btc => vec![98u8, 116u8, 99u8],
            Currency::Usd => vec![117u8, 115u8, 100u8],
            Currency::Rub => vec![114u8, 117u8, 98u8],
        };
        assert(r@ =~= self.spec_sql_bytes());
        r
    }

    /// The currency stored as the bytes `d`, if any.
    pub open spec fn parse_sql_bytes(d: Seq<u8>) -> Option<Currency> {
        if d == Currency::Eth.spec_sql_bytes() {
            Some(Currency::Eth)
        } else if d == Currency::Stq.spec_sql_bytes() {
            Some(Currency::Stq)
        } else if d == Currency::Btc.spec_sql_bytes() {
            Some(Currency::Btc)
        } else if d == Currency::Usd.spec_sql_bytes() {
            Some(Currency::Usd)
        } else if d == Currency::Rub.spec_sql_bytes() {
            Some(Currency::Rub)
        } else {
            None
        }
    }

    /// Reads a currency back from a column value: null and unknown bytes are refused.
    pub fn from_sql(data: Option<&[u8]>) -> (r: Result<Currency, CurrencySqlError>)
        ensures
            data is None ==> r == Err::<Currency, CurrencySqlError>(CurrencySqlError::Null),
            data matches Some(d) ==> match Currency::parse_sql_bytes(d@) {
                Some(c) => r == Ok::<Currency, CurrencySqlError>(c),
                None => r matches Err(CurrencySqlError::Unrecognized(v)) && v@ == d@,
            },
    {
        match data {
            None => Err(CurrencySqlError::Null),
            Some(d) => {
                let n = d.len();
                proof {
                    assert(Currency::Eth.spec_sql_bytes() =~= seq![101u8, 116u8, 104u8]);
                    assert(Currency::Stq.spec_sql_bytes() =~= seq![115u8, 116u8, 113u8]);
                    assert(Currency::Btc.spec_sql_bytes() =~= seq![98u8, 116u8, 99u8]);
                    assert(Currency::Usd.spec_sql_bytes() =~= seq![117u8, 115u8, 100u8]);
                    assert(Currency::Rub.spec_sql_bytes() =~= seq![114u8, 117u8, 98u8]);
                }
                if n == 3 {
                    let b0 = d[0];
                    let b1 = d[1];
                    let b2 = d[2];
                    if b0 == 101u8 && b1 == 116u8 && b2 == 104u8 {
                        assert(d@ =~= Currency::Eth.spec_sql_bytes());
                        return Ok(Currency::Eth);
                    }
                    if b0 == 115u8 && b1 == 116u8 && b2 == 113u8 {
                        assert(d@ =~= Currency::Stq.spec_sql_bytes());
                        return Ok(Currency::Stq);
                    }
                    if b0 == 98u8 && b1 == 116u8 && b2 == 99u8 {
                        assert(d@ =~= Currency::Btc.spec_sql_bytes());
                        return Ok(Currency::Btc);
                    }
                    if b0 == 117u8 && b1 == 115u8 && b2 == 100u8 {
                        assert(d@ =~= Currency::Usd.spec_sql_bytes());
                        return Ok(Currency::Usd);
                    }
                    if b0 == 114u8 && b1 == 117u8 && b2 == 98u8 {
                        assert(d@ =~= Currency::Rub.spec_sql_bytes());
                        return Ok(Currency::Rub);
                    }
                }
                Err(CurrencySqlError::Unrecognized(vstd::slice::slice_to_vec(d)))
            },
        }
    }
}

/// Parsing the name that a currency displays as gives the currency back, and
/// a name parses to a currency only if it is that currency's name.
pub proof fn lemma_name_round_trip(c: Currency, s: Seq<char>)
    ensures
        Currency::parse_name(c.spec_name()) == Some(c),
        Currency::parse_name(s) == Some(c) ==> s == c.spec_name(),
{
    assert(Currency::Eth.spec_name() != Currency::Stq.spec_name() && Currency::Eth.spec_name()[0] == 'e');
    assert(Currency::Btc.spec_name()[0] == 'b' && Currency::Usd.spec_name()[0] == 'u');
    assert(Currency::Rub.spec_name()[0] == 'r' && Currency::Stq.spec_name()[0] == 's');
}

/// Reading back the bytes a currency is stored as gives the currency back, and
/// bytes read back as a currency only if they are what it is stored as.
pub proof fn lemma_sql_round_trip(c: Currency, d: Seq<u8>)
    ensures
        Currency::parse_sql_bytes(c.spec_sql_bytes()) == Some(c),
        Currency::parse_sql_bytes(d) == Some(c) ==> d == c.spec_sql_bytes(),
{
    assert(Currency::Eth.spec_sql_bytes() =~= seq![101u8, 116u8, 104u8]);
    assert(Currency::Stq.spec_sql_bytes() =~= seq![115u8, 116u8, 113u8]);
    assert(Currency::Btc.spec_sql_bytes() =~= seq![98u8, 116u8, 99u8]);
    assert(Currency::Usd.spec_sql_bytes() =~= seq![117u8, 115u8, 100u8]);
    assert(Currency::Rub.spec_sql_bytes() =~= seq![114u8, 117u8, 98u8]);
}

/// The rate that no currency pair exceeds; quantities are scaled by it so that
/// the integer division below loses less than a tenth of a cent.
pub const MAX_RATE: u128 = 6500000u128;
pub const FIAT_DECIMALS: u128 = 1u128;
pub const BTC_DECIMALS: u128 = 100_000_000u128;
pub const ETH_DECIMALS: u128 = 1_000_000_000_000_000_000u128;
pub const STQ_DECIMALS: u128 = 1_000_000_000_000_000_000u128;

impl Currency {
    /// How many smallest units make one whole unit of the currency.
    pub open spec fn spec_decimals(self) -> u128 {
        match self {
            Currency::Btc => BTC_DECIMALS,
            Currency::Eth => ETH_DECIMALS,
            Currency::Stq => STQ_DECIMALS,
            Currency::Usd => FIAT_DECIMALS,
            Currency::Rub => FIAT_DECIMALS,
        }
    }

    pub fn decimals(self) -> (r: u128)
        ensures
            r == self.spec_decimals(),
            r >= 1,
    {
        match self {
            Currency::Btc => BTC_DECIMALS,
            Currency::Eth => ETH_DECIMALS,
            Currency::Stq => STQ_DECIMALS,
            Currency::Usd => FIAT_DECIMALS,
            Currency::Rub => FIAT_DECIMALS,
        }
    }

    /// The quantity of whole units that `value` stands for, times `MAX_RATE`,
    /// rounded down; never less than one (a tenth of a cent).
    pub open spec fn spec_scaled_quantity(self, value: Amount) -> int {
        let q = (value.spec_raw() * MAX_RATE) as int / self.spec_decimals() as int;
        if q == 0 { 1 } else { q }
    }

    /// The integer half of converting an amount to a quantity of whole units:
    /// the quantity is this number divided by `MAX_RATE`.
    pub fn scaled_quantity(self, value: Amount) -> (r: u128)
        requires
            value.spec_raw() * MAX_RATE <= u128::MAX,
        ensures
            r == self.spec_scaled_quantity(value),
            r >= 1,
    {
        let decimals = self.decimals();
        let mut q: u128 = value.raw() * MAX_RATE / decimals;
        if q == 0 {
            q = 1;
        }
        q
    }

    /// The amount whose quantity of whole units, times `MAX_RATE`, is `scaled`
    /// (rounded down to a smallest unit).
    pub open spec fn spec_amount_from_scaled(self, scaled: u128) -> int {
        (scaled * self.spec_decimals()) as int / MAX_RATE as int
    }

    /// The integer half of converting a quantity of whole units to an amount.
    pub fn amount_from_scaled(self, scaled: u128) -> (r: Amount)
        requires
            scaled * self.spec_decimals() <= u128::MAX,
        ensures
            r.spec_raw() == self.spec_amount_from_scaled(scaled),
    {
        let decimals = self.decimals();
        Amount::new(scaled * decimals / MAX_RATE)
    }
}

/// Converting an amount to its scaled quantity and back never gives more than
/// it started with and loses less than `decimals / MAX_RATE + 1` smallest units;
/// for fiat currencies (one smallest unit per whole unit) nothing is lost.
/// It holds wherever the amount is worth at least a tenth of a cent's scale
/// (`raw * MAX_RATE >= decimals`), so that the floor of one unit does not apply.
pub proof fn lemma_scaled_round_trip(c: Currency, value: Amount)
    requires
        value.spec_raw() * MAX_RATE >= c.spec_decimals(),
        value.spec_raw() * MAX_RATE <= u128::MAX,
    ensures
        ({
            let back = c.spec_amount_from_scaled(c.spec_scaled_quantity(value) as u128);
            &&& back <= value.spec_raw()
            &&& (value.spec_raw() - back) * MAX_RATE < c.spec_decimals() + MAX_RATE
            &&& c.spec_decimals() == 1 ==> back == value.spec_raw()
        }),
{
    let v = value.spec_raw() as int;
    let d = c.spec_decimals() as int;
    let m = MAX_RATE as int;
    let x = (v * m) / d;
    assert(d >= 1);
    assert(x * d <= v * m && v * m < x * d + d) by (nonlinear_arith)
        requires
            d >= 1,
            x == (v * m) / d,
    {
        vstd::arithmetic::div_mod::lemma_fundamental_div_mod(v * m, d);
        vstd::arithmetic::div_mod::lemma_mod_bound(v * m, d);
    }
    assert(x >= 1) by (nonlinear_arith)
        requires
            d >= 1,
            v * m >= d,
            v * m < x * d + d,
    {}
    assert(c.spec_scaled_quantity(value) == x);
    assert(x <= v * m) by (nonlinear_arith)
        requires
            d >= 1,
            x * d <= v * m,
            x >= 1,
    {}
    let back = (x * d) / m;
    assert(back * m <= x * d && x * d < back * m + m) by (nonlinear_arith)
        requires
            m >= 1,
            back == (x * d) / m,
    {
        vstd::arithmetic::div_mod::lemma_fundamental_div_mod(x * d, m);
        vstd::arithmetic::div_mod::lemma_mod_bound(x * d, m);
    }
    assert(c.spec_amount_from_scaled(x as u128) == back);
    assert(back <= v) by (nonlinear_arith)
        requires
            m >= 1,
            back * m <= x * d,
            x * d <= v * m,
    {}
    assert((v - back) * m < d + m) by (nonlinear_arith)
        requires
            v * m < x * d + d,
            x * d < back * m + m,
    {}
    if d == 1 {
        assert(x == v * m);
        assert(back == v) by (nonlinear_arith)
            requires
                m >= 1,
                x == v * m,
                back == (x * 1) / m,
        {}
    }
}

/// A larger amount never stands for a smaller quantity, in either direction
/// of the conversion.
pub proof fn lemma_scaling_monotone(c: Currency, a: Amount, b: Amount, x: u128, y: u128)
    ensures
        a.spec_raw() <= b.spec_raw() ==> c.spec_scaled_quantity(a) <= c.spec_scaled_quantity(b),
        x <= y ==> c.spec_amount_from_scaled(x) <= c.spec_amount_from_scaled(y),
{
    let d = c.spec_decimals() as int;
    let m = MAX_RATE as int;
    if a.spec_raw() <= b.spec_raw() {
        vstd::arithmetic::mul::lemma_mul_inequality(a.spec_raw() as int, b.spec_raw() as int, m);
        vstd::arithmetic::div_mod::lemma_div_is_ordered(a.spec_raw() * m, b.spec_raw() * m, d);
    }
    if x <= y {
        vstd::arithmetic::mul::lemma_mul_inequality(x as int, y as int, d);
        vstd::arithmetic::div_mod::lemma_div_is_ordered(x * d, y * d, m);
    }
}

} // verus!
