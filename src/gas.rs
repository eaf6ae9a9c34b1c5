//! Gas figures of a benchmark run: the check of a call's outcome, teragas
//! formatting, and the rows of the comparison table.
use vstd::prelude::*;
use vstd::string::StringExecFns;
use rust_decimal::Decimal;
use crate::guest::decimal;

verus! {

/// Gas units per teragas, as a decimal scale.
pub const TGAS_SCALE: u32 = 12;

/// Decimal places a teragas figure is rounded to.
pub const TGAS_DECIMALS: u32 = 4;

/// `10^n`.
pub open spec fn pow10(n: nat) -> nat
    decreases n,
{
    if n == 0 {
        1
    } else {
        10 * pow10((n - 1) as nat)
    }
}

/// The last `width` decimal digits of `n`, padded with leading zeros.
pub open spec fn padded_digits(n: nat, width: nat) -> Seq<char>
    decreases width,
{
    if width == 0 {
        Seq::empty()
    } else {
        padded_digits(n / 10, (width - 1) as nat).push(((48 + n % 10) as u8) as char)
    }
}

/// `m / 10^k` rounded to a whole number, midpoints to the even neighbour.
pub open spec fn round_half_even(m: nat, k: nat) -> nat {
    let q = m / pow10(k);
    let rem = m % pow10(k);
    if 2 * rem > pow10(k) || (k > 0 && 2 * rem == pow10(k) && q % 2 == 1) {
        q + 1
    } else {
        q
    }
}

/// The text of the non-negative decimal `mantissa / 10^scale` rounded to `dp`
/// places, midpoints to even: the whole part (`0` when there is none), then,
/// where `dp` is not zero, a point and exactly `dp` fraction digits.
pub open spec fn rounded_decimal_text(mantissa: nat, scale: nat, dp: nat) -> Seq<char> {
    let v = round_half_even(mantissa, (scale - dp) as nat);
    if dp == 0 {
        decimal_chars(v)
    } else {
        decimal_chars(v / pow10(dp)) + "."@ + padded_digits(v % pow10(dp), dp)
    }
}

/// The decimal digits of `n`.
pub open spec fn decimal_chars(n: nat) -> Seq<char> {
    decimal(n).map_values(|b: u8| b as char)
}

/// `{gas} TGas`, with the gas in teragas rounded to four places.
pub open spec fn tgas_text(gas: u64) -> Seq<char> {
    rounded_decimal_text(gas as nat, TGAS_SCALE as nat, TGAS_DECIMALS as nat) + " TGas"@
}

/// The log line a call must have produced for `n` iterations.
pub open spec fn done_text(n: nat) -> Seq<char> {
    "Done "@ + decimal_chars(n) + " iterations!"@
}

/// The column header for loop limit `n`.
pub open spec fn header_text(n: nat) -> Seq<char> {
    "loop_limit = "@ + decimal_chars(n)
}

/// Relies on `rust_decimal::Decimal`: `Decimal::new(mantissa, scale)`, rounded
/// by `round_dp(dp)` (midpoints to even, to scale `dp`) and written out by its
/// `Display`. `new` panics on a scale above 28.
#[verifier::external_body]
fn decimal_text(mantissa: i64, scale: u32, dp: u32) -> (r: String)
    requires
        0 <= mantissa,
        dp <= scale <= 28,
    ensures
        r@ == rounded_decimal_text(mantissa as nat, scale as nat, dp as nat),
{
    Decimal::new(mantissa, scale).round_dp(dp).to_string()
}

/// The one-digit text of `d`.
fn digit_text(d: u32) -> (r: &'static str)
    requires
        d < 10,
    ensures
        r@ == seq![((48 + d) as u8) as char],
{
    proof {
        reveal_strlit("0");
        reveal_strlit("1");
        reveal_strlit("2");
        reveal_strlit("3");
        reveal_strlit("4");
        reveal_strlit("5");
        reveal_strlit("6");
        reveal_strlit("7");
        reveal_strlit("8");
        reveal_strlit("9");
    }
    let r = match d {
        0 => "0",
        1 => "1",
        2 => "2",
        3 => "3",
        4 => "4",
        5 => "5",
        6 => "6",
        7 => "7",
        8 => "8",
        _ => "9",
    };
    assert(r@ =~= seq![((48 + d) as u8) as char]);
    r
}

/// The decimal digits of `n`.
pub fn decimal_string(n: u32) -> (r: String)
    ensures
        r@ == decimal_chars(n as nat),
    decreases n,
{
    if n < 10 {
        let r = String::from_str(digit_text(n));
        assert(r@ =~= decimal_chars(n as nat));
        r
    } else {
        let head = decimal_string(n / 10);
        let r = head.concat(digit_text(n % 10));
        assert(r@ =~= decimal_chars(n as nat));
        r
    }
}

/// `gas` as teragas rounded to four decimal places, followed by ` TGas`.
pub fn fmt_tgas(gas: u64) -> (r: String)
    requires
        gas <= i64::MAX,
    ensures
        r@ == tgas_text(gas),
{
    let figure = decimal_text(gas as i64, TGAS_SCALE, TGAS_DECIMALS);
    proof {
        reveal_strlit(" TGas");
    }
    figure.concat(" TGas")
}

/// The log line `Done {n} iterations!`.
pub fn done_text_of(n: u32) -> (r: String)
    ensures
        r@ == done_text(n as nat),
{
    proof {
        reveal_strlit("Done ");
        reveal_strlit(" iterations!");
    }
    let digits = decimal_string(n);
    String::from_str("Done ").concat(digits.as_str()).concat(" iterations!")
}

/// Why the outcome of a benchmark call cannot be counted.
#[derive(Clone, Copy, Debug, PartialEq, Eq)]
pub enum OutcomeError {
    /// The logs are not the one line `Done {n} iterations!` for the loop limit.
    UnexpectedLogs,
    /// The call did not produce exactly two receipts (the call and the refund).
    UnexpectedReceipts,
}

/// The gas a benchmark call burnt, from its logs and the gas of its receipts:
/// the logs must be exactly the line for `expected_loop_limit`, and there
/// must be two receipts, of which the first is the function call's.
pub fn gas_of_outcome(logs: &Vec<String>, expected_loop_limit: u32, receipts_gas: &Vec<u64>) -> (r:
    Result<u64, OutcomeError>)
    ensures
        r == (if !(logs@.len() == 1 && logs@[0]@ == done_text(expected_loop_limit as nat)) {
            Err(OutcomeError::UnexpectedLogs)
        } else if receipts_gas@.len() != 2 {
            Err(OutcomeError::UnexpectedReceipts)
        } else {
            Ok(receipts_gas@[0])
        }),
{
    let expected = done_text_of(expected_loop_limit);
    if logs.len() != 1 || !(logs[0] == expected) {
        return Err(OutcomeError::UnexpectedLogs);
    }
    if receipts_gas.len() != 2 {
        return Err(OutcomeError::UnexpectedReceipts);
    }
    Ok(receipts_gas[0])
}

/// Gas figures per loop limit: one column for each loop limit, with the gas
/// of the contract run directly and of the contract run in the interpreter.
pub struct GasUsage {
    /// The loop limits benchmarked, in order.
    pub loop_limits: Vec<u32>,
    /// Gas burnt running the kernel directly, one per loop limit.
    pub native: Vec<u64>,
    /// Gas burnt running the kernel in the embedded interpreter, one per loop limit.
    pub interpreted_wasmi: Vec<u64>,
}

impl GasUsage {
    /// A gas figure of each kind for each loop limit.
    pub open spec fn wf(&self) -> bool {
        &&& self.native@.len() >= self.loop_limits@.len()
        &&& self.interpreted_wasmi@.len() >= self.loop_limits@.len()
    }

    /// The gas figures of the loop limits can be written as teragas.
    pub open spec fn printable(&self) -> bool {
        &&& forall|i: int| 0 <= i < self.loop_limits@.len() ==> self.native@[i] <= i64::MAX
        &&& forall|i: int| 0 <= i < self.loop_limits@.len() ==> self.interpreted_wasmi@[i] <= i64::MAX
    }

    /// No loop limit benchmarked yet.
    pub fn new() -> (r: GasUsage)
        ensures
            r.loop_limits@.len() == 0,
            r.native@.len() == 0,
            r.interpreted_wasmi@.len() == 0,
    {
        GasUsage { loop_limits: Vec::new(), native: Vec::new(), interpreted_wasmi: Vec::new() }
    }

    /// Adds the column for `loop_limit`.
    pub fn push(&mut self, loop_limit: u32, native: u64, interpreted_wasmi: u64)
        ensures
            final(self).loop_limits@ == old(self).loop_limits@.push(loop_limit),
            final(self).native@ == old(self).native@.push(native),
            final(self).interpreted_wasmi@ == old(self).interpreted_wasmi@.push(interpreted_wasmi),
    {
        self.loop_limits.push(loop_limit);
        self.native.push(native);
        self.interpreted_wasmi.push(interpreted_wasmi);
    }

    /// The table as text: a header row `exec_mode`, `loop_limit = {n}`...,
    /// then the row `native` and the row `wasmi interpreter`, each with the
    /// teragas figure for every loop limit; gas figures beyond the number of
    /// loop limits are left out.
    pub fn rows(&self) -> (r: Vec<Vec<String>>)
        requires
            self.wf(),
            self.printable(),
        ensures
            r@.len() == 3,
            r@[0]@.len() == self.loop_limits@.len() + 1,
            r@[1]@.len() == self.loop_limits@.len() + 1,
            r@[2]@.len() == self.loop_limits@.len() + 1,
            r@[0]@[0]@ == "exec_mode"@,
            r@[1]@[0]@ == "native"@,
            r@[2]@[0]@ == "wasmi interpreter"@,
            forall|i: int|
                0 <= i < self.loop_limits@.len() ==> {
                    &&& r@[0]@[i + 1]@ == header_text(self.loop_limits@[i] as nat)
                    &&& r@[1]@[i + 1]@ == tgas_text(self.native@[i])
                    &&& r@[2]@[i + 1]@ == tgas_text(self.interpreted_wasmi@[i])
                },
    {
        proof {
            reveal_strlit("exec_mode");
            reveal_strlit("native");
            reveal_strlit("wasmi interpreter");
            reveal_strlit("loop_limit = ");
        }
        let mut headers: Vec<String> = vec![String::from_str("exec_mode")];
        let mut row_native: Vec<String> = vec![String::from_str("native")];
        let mut row_wasmi: Vec<String> = vec![String::from_str("wasmi interpreter")];
        let n = self.loop_limits.len();
        let mut i: usize = 0;
        while i < n
            invariant
                self.wf(),
                self.printable(),
                n == self.loop_limits@.len(),
                i <= n,
                headers@.len() == i + 1,
                row_native@.len() == i + 1,
                row_wasmi@.len() == i + 1,
                headers@[0]@ == "exec_mode"@,
                row_native@[0]@ == "native"@,
                row_wasmi@[0]@ == "wasmi interpreter"@,
                forall|k: int|
                    0 <= k < i ==> {
                        &&& headers@[k + 1]@ == header_text(self.loop_limits@[k] as nat)
                        &&& row_native@[k + 1]@ == tgas_text(self.native@[k])
                        &&& row_wasmi@[k + 1]@ == tgas_text(self.interpreted_wasmi@[k])
                    },
            decreases n - i,
        {
            let digits = decimal_string(self.loop_limits[i]);
            headers.push(String::from_str("loop_limit = ").concat(digits.as_str()));
            row_native.push(fmt_tgas(self.native[i]));
            row_wasmi.push(fmt_tgas(self.interpreted_wasmi[i]));
            i = i + 1;
        }
        vec![headers, row_native, row_wasmi]
    }
}

} // verus!
