//! Calculator provider: `calc <expression>` queries are evaluated with exact
//! rational arithmetic over `+ - * /`, unary signs and parentheses.

use vstd::prelude::*;

use crate::plugin_api::{
    EffectView, PluginErrorView, StepView,
    new_result_view, results_view, Action, ActionOutcome, ActionView, ExecutionStep, PluginError,
    Provider, ProviderId, ResultKind, SearchContext, SearchResult, SearchResultView,
};
use crate::providers::shell::strings2;
use crate::text::{
    append_str, chars_of, concat2, int_digits, lit, nat_digits, seq_starts_with, string_from_chars,
    sub_chars, trim, trim_chars, trim_seq, u64_to_decimal,
};

verus! {

pub const CALCULATOR_SCORE_HINT: i64 = 1000;

/// Largest magnitude a numerator or denominator may reach.
pub const CALC_LIMIT: i128 = 1_000_000_000_000_000_000;

#[derive(Debug, Clone, Copy, PartialEq, Eq, Structural)]
pub enum CalculatorError {
    DivisionByZero,
    ExpectedNumber,
    UnclosedParenthesis,
    UnexpectedToken,
    /// A number or an intermediate result left the supported range.
    TooLarge,
}

pub open spec fn calculator_error_text(e: CalculatorError) -> Seq<char> {
    match e {
        CalculatorError::DivisionByZero => "division by zero"@,
        CalculatorError::ExpectedNumber => "expected a number"@,
        CalculatorError::UnclosedParenthesis => "unclosed parenthesis"@,
        CalculatorError::UnexpectedToken => "unexpected token"@,
        CalculatorError::TooLarge => "number is too large"@,
    }
}

impl CalculatorError {
    pub fn message(&self) -> (s: String)
        ensures
            s@ == calculator_error_text(*self),
    {
        match self {
            CalculatorError::DivisionByZero => lit("division by zero"),
            CalculatorError::ExpectedNumber => lit("expected a number"),
            CalculatorError::UnclosedParenthesis => lit("unclosed parenthesis"),
            CalculatorError::UnexpectedToken => lit("unexpected token"),
            CalculatorError::TooLarge => lit("number is too large"),
        }
    }
}

/// An exact fraction `num / den` with `den > 0`.
#[derive(Debug, Clone, Copy, PartialEq, Eq)]
pub struct Rational {
    pub num: i128,
    pub den: i128,
}

pub type RatV = (int, int);

impl View for Rational {
    type V = RatV;

    open spec fn view(&self) -> RatV {
        (self.num as int, self.den as int)
    }
}

pub open spec fn limit() -> int {
    CALC_LIMIT as int
}

pub open spec fn checked_rat(n: int, d: int) -> Result<RatV, CalculatorError> {
    if -limit() <= n <= limit() && 1 <= d <= limit() {
        Ok((n, d))
    } else {
        Err(CalculatorError::TooLarge)
    }
}

pub open spec fn rat_add(a: RatV, b: RatV) -> Result<RatV, CalculatorError> {
    checked_rat(a.0 * b.1 + b.0 * a.1, a.1 * b.1)
}

pub open spec fn rat_sub(a: RatV, b: RatV) -> Result<RatV, CalculatorError> {
    checked_rat(a.0 * b.1 - b.0 * a.1, a.1 * b.1)
}

pub open spec fn rat_mul(a: RatV, b: RatV) -> Result<RatV, CalculatorError> {
    checked_rat(a.0 * b.0, a.1 * b.1)
}

pub open spec fn rat_div(a: RatV, b: RatV) -> Result<RatV, CalculatorError> {
    if b.0 == 0 {
        Err(CalculatorError::DivisionByZero)
    } else if b.0 > 0 {
        checked_rat(a.0 * b.1, a.1 * b.0)
    } else {
        checked_rat(-(a.0 * b.1), -(a.1 * b.0))
    }
}

pub open spec fn is_ascii_ws(c: char) -> bool {
    c == ' ' || c == '\t' || c == '\n' || c == '\x0C' || c == '\r'
}

pub open spec fn is_digit(c: char) -> bool {
    '0' <= c && c <= '9'
}

/// Position after the whitespace that starts at `p`.
pub open spec fn skip_ws(s: Seq<char>, p: int) -> int
    decreases s.len() - p,
{
    if 0 <= p < s.len() && is_ascii_ws(s[p]) {
        skip_ws(s, p + 1)
    } else {
        p
    }
}

/// End of a number token starting at `p`: digits with at most one `.`.
pub open spec fn number_end(s: Seq<char>, p: int, seen_dot: bool) -> int
    decreases s.len() - p,
{
    if 0 <= p < s.len() && is_digit(s[p]) {
        number_end(s, p + 1, seen_dot)
    } else if 0 <= p < s.len() && s[p] == '.' && !seen_dot {
        number_end(s, p + 1, true)
    } else {
        p
    }
}

/// The digits of a token read as one integer, ignoring the dot.
pub open spec fn digits_value(t: Seq<char>) -> int
    decreases t.len(),
{
    if t.len() == 0 {
        0
    } else if t.last() == '.' {
        digits_value(t.drop_last())
    } else {
        digits_value(t.drop_last()) * 10 + ((t.last() as u32) - 48)
    }
}

/// Number of digits after the dot of a token.
pub open spec fn frac_digits(t: Seq<char>) -> nat
    decreases t.len(),
{
    if t.len() == 0 {
        0
    } else if t.last() == '.' {
        frac_digits(t.drop_last())
    } else {
        frac_digits(t.drop_last()) + if t.drop_last().contains('.') { 1nat } else { 0nat }
    }
}

pub open spec fn pow10(n: nat) -> int
    decreases n,
{
    if n == 0 {
        1
    } else {
        10 * pow10((n - 1) as nat)
    }
}

pub type PResult = Result<(RatV, int), CalculatorError>;

pub open spec fn parse_number_spec(s: Seq<char>, p: int) -> PResult {
    let q = skip_ws(s, p);
    let e = number_end(s, q, false);
    let tok = s.subrange(q, e);
    if !(p <= q <= e <= s.len()) {
        Err(CalculatorError::UnexpectedToken)
    } else if e == q || tok == seq!['.'] {
        Err(CalculatorError::ExpectedNumber)
    } else {
        match checked_rat(digits_value(tok), pow10(frac_digits(tok))) {
            Ok(v) => Ok((v, e)),
            Err(err) => Err(err),
        }
    }
}

/// `expression := term (('+' | '-') term)*`
pub open spec fn parse_expr_spec(s: Seq<char>, p: int) -> PResult
    decreases s.len() - p, 4int,
{
    if !(0 <= p <= s.len()) {
        Err(CalculatorError::UnexpectedToken)
    } else {
        match parse_term_spec(s, p) {
            Err(e) => Err(e),
            Ok((v, q)) => if p <= q <= s.len() {
                parse_expr_tail_spec(s, q, v)
            } else {
                Err(CalculatorError::UnexpectedToken)
            },
        }
    }
}

pub open spec fn parse_expr_tail_spec(s: Seq<char>, p: int, acc: RatV) -> PResult
    decreases s.len() - p, 3int,
{
    let q = skip_ws(s, p);
    if !(0 <= p <= q <= s.len()) {
        Err(CalculatorError::UnexpectedToken)
    } else if q < s.len() && (s[q] == '+' || s[q] == '-') {
        match parse_term_spec(s, q + 1) {
            Err(e) => Err(e),
            Ok((w, r)) => {
                let combined = if s[q] == '+' {
                    rat_add(acc, w)
                } else {
                    rat_sub(acc, w)
                };
                match combined {
                    Err(e) => Err(e),
                    Ok(x) => if q + 1 <= r <= s.len() {
                        parse_expr_tail_spec(s, r, x)
                    } else {
                        Err(CalculatorError::UnexpectedToken)
                    },
                }
            },
        }
    } else {
        Ok((acc, q))
    }
}

/// `term := factor (('*' | '/') factor)*`
pub open spec fn parse_term_spec(s: Seq<char>, p: int) -> PResult
    decreases s.len() - p, 2int,
{
    if !(0 <= p <= s.len()) {
        Err(CalculatorError::UnexpectedToken)
    } else {
        match parse_factor_spec(s, p) {
            Err(e) => Err(e),
            Ok((v, q)) => if p <= q <= s.len() {
                parse_term_tail_spec(s, q, v)
            } else {
                Err(CalculatorError::UnexpectedToken)
            },
        }
    }
}

pub open spec fn parse_term_tail_spec(s: Seq<char>, p: int, acc: RatV) -> PResult
    decreases s.len() - p, 1int,
{
    let q = skip_ws(s, p);
    if !(0 <= p <= q <= s.len()) {
        Err(CalculatorError::UnexpectedToken)
    } else if q < s.len() && (s[q] == '*' || s[q] == '/') {
        match parse_factor_spec(s, q + 1) {
            Err(e) => Err(e),
            Ok((w, r)) => {
                let combined = if s[q] == '*' {
                    rat_mul(acc, w)
                } else {
                    rat_div(acc, w)
                };
                match combined {
                    Err(e) => Err(e),
                    Ok(x) => if q + 1 <= r <= s.len() {
                        parse_term_tail_spec(s, r, x)
                    } else {
                        Err(CalculatorError::UnexpectedToken)
                    },
                }
            },
        }
    } else {
        Ok((acc, q))
    }
}

/// `factor := '+' factor | '-' factor | '(' expression ')' | number`
pub open spec fn parse_factor_spec(s: Seq<char>, p: int) -> PResult
    decreases s.len() - p, 0int,
{
    let q = skip_ws(s, p);
    if !(0 <= p <= q <= s.len()) {
        Err(CalculatorError::UnexpectedToken)
    } else if q < s.len() && s[q] == '+' {
        parse_factor_spec(s, q + 1)
    } else if q < s.len() && s[q] == '-' {
        match parse_factor_spec(s, q + 1) {
            Err(e) => Err(e),
            Ok((v, r)) => Ok(((-v.0, v.1), r)),
        }
    } else if q < s.len() && s[q] == '(' {
        match parse_expr_spec(s, q + 1) {
            Err(e) => Err(e),
            Ok((v, r)) => {
                let t = skip_ws(s, r);
                if 0 <= t < s.len() && s[t] == ')' {
                    Ok((v, t + 1))
                } else {
                    Err(CalculatorError::UnclosedParenthesis)
                }
            },
        }
    } else {
        parse_number_spec(s, q)
    }
}

/// The value of a whole expression; trailing text other than whitespace is an error.
pub open spec fn evaluate_spec(s: Seq<char>) -> Result<RatV, CalculatorError> {
    match parse_expr_spec(s, 0) {
        Err(e) => Err(e),
        Ok((v, p)) => if skip_ws(s, p) >= s.len() {
            Ok(v)
        } else {
            Err(CalculatorError::UnexpectedToken)
        },
    }
}

pub open spec fn pres_view(r: Result<(Rational, usize), CalculatorError>) -> PResult {
    match r {
        Ok((v, p)) => Ok((v@, p as int)),
        Err(e) => Err(e),
    }
}

fn is_ascii_ws_exec(c: char) -> (b: bool)
    ensures
        b == is_ascii_ws(c),
{
    c == ' ' || c == '\t' || c == '\n' || c == '\x0C' || c == '\r'
}

fn skip_ws_exec(s: &Vec<char>, p: usize) -> (q: usize)
    requires
        p <= s@.len(),
    ensures
        q as int == skip_ws(s@, p as int),
        p <= q <= s@.len(),
{
    let mut q = p;
    while q < s.len() && is_ascii_ws_exec(s[q])
        invariant
            p <= q <= s@.len(),
            skip_ws(s@, p as int) == skip_ws(s@, q as int),
        decreases s@.len() - q,
    {
        q += 1;
    }
    q
}

pub proof fn lemma_small_product(a: int, b: int)
    requires
        -limit() <= a <= limit(),
        -limit() <= b <= limit(),
    ensures
        -limit() * limit() <= a * b <= limit() * limit(),
{
    assert(-limit() * limit() <= a * b <= limit() * limit()) by (nonlinear_arith)
        requires
            -limit() <= a <= limit(),
            -limit() <= b <= limit(),
            limit() > 0,
    ;
}

pub proof fn lemma_limit_square()
    ensures
        limit() * limit() == 1_000_000_000_000_000_000_000_000_000_000_000_000int,
{
    let l = limit();
    assert(l == 1_000_000_000_000_000_000int);
    assert(l * l == 1_000_000_000_000_000_000_000_000_000_000_000_000int) by (nonlinear_arith)
        requires
            l == 1_000_000_000_000_000_000int,
    ;
}

/// Sum or difference of two rationals.
fn rat_add_sub(a: Rational, b: Rational, subtract: bool) -> (r: Result<Rational, CalculatorError>)
    requires
        checked_rat(a@.0, a@.1) is Ok,
        checked_rat(b@.0, b@.1) is Ok,
    ensures
        match r {
            Ok(v) => (if subtract { rat_sub(a@, b@) } else { rat_add(a@, b@) }) == Ok::<RatV, CalculatorError>(v@),
            Err(e) => (if subtract { rat_sub(a@, b@) } else { rat_add(a@, b@) }) == Err::<RatV, CalculatorError>(e),
        },
{
    proof {
        lemma_small_product(a.num as int, b.den as int);
        lemma_small_product(b.num as int, a.den as int);
        lemma_small_product(a.den as int, b.den as int);
        lemma_limit_square();
    }
    let x = a.num * b.den;
    let y = b.num * a.den;
    let d = a.den * b.den;
    let n = if subtract { x - y } else { x + y };
    if -CALC_LIMIT <= n && n <= CALC_LIMIT && 1 <= d && d <= CALC_LIMIT {
        Ok(Rational { num: n, den: d })
    } else {
        Err(CalculatorError::TooLarge)
    }
}

/// Product or quotient of two rationals.
fn rat_mul_div(a: Rational, b: Rational, divide: bool) -> (r: Result<Rational, CalculatorError>)
    requires
        checked_rat(a@.0, a@.1) is Ok,
        checked_rat(b@.0, b@.1) is Ok,
    ensures
        match r {
            Ok(v) => (if divide { rat_div(a@, b@) } else { rat_mul(a@, b@) }) == Ok::<RatV, CalculatorError>(v@),
            Err(e) => (if divide { rat_div(a@, b@) } else { rat_mul(a@, b@) }) == Err::<RatV, CalculatorError>(e),
        },
{
    proof {
        lemma_small_product(a.num as int, b.den as int);
        lemma_small_product(a.den as int, b.num as int);
        lemma_small_product(a.num as int, b.num as int);
        lemma_small_product(a.den as int, b.den as int);
        lemma_limit_square();
    }
    let (n, d) = if divide {
        if b.num == 0 {
            return Err(CalculatorError::DivisionByZero);
        }
        if b.num > 0 {
            (a.num * b.den, a.den * b.num)
        } else {
            (-(a.num * b.den), -(a.den * b.num))
        }
    } else {
        (a.num * b.num, a.den * b.den)
    };
    if -CALC_LIMIT <= n && n <= CALC_LIMIT && 1 <= d && d <= CALC_LIMIT {
        Ok(Rational { num: n, den: d })
    } else {
        Err(CalculatorError::TooLarge)
    }
}


pub open spec fn in_range(v: RatV) -> bool {
    checked_rat(v.0, v.1) is Ok
}

pub open spec fn pres_in_range(r: Result<(Rational, usize), CalculatorError>) -> bool {
    r matches Ok((v, _)) ==> in_range(v@)
}

pub open spec fn number_char(c: char) -> bool {
    is_digit(c) || c == '.'
}

pub proof fn lemma_digits_value_nonneg(t: Seq<char>)
    requires
        forall|i: int| 0 <= i < t.len() ==> number_char(#[trigger] t[i]),
    ensures
        digits_value(t) >= 0,
    decreases t.len(),
{
    if t.len() > 0 {
        lemma_digits_value_nonneg(t.drop_last());
    }
}

pub proof fn lemma_pow10_pos(n: nat)
    ensures
        pow10(n) >= 1,
    decreases n,
{
    if n > 0 {
        lemma_pow10_pos((n - 1) as nat);
    }
}

/// Reading more of a number token never makes its value or its
/// denominator smaller.
pub proof fn lemma_number_prefix_mono(t: Seq<char>, k: int)
    requires
        0 <= k <= t.len(),
        forall|i: int| 0 <= i < t.len() ==> number_char(#[trigger] t[i]),
    ensures
        digits_value(t.take(k)) <= digits_value(t),
        pow10(frac_digits(t.take(k))) <= pow10(frac_digits(t)),
    decreases t.len(),
{
    if k < t.len() {
        let u = t.drop_last();
        assert(u.take(k) =~= t.take(k));
        lemma_number_prefix_mono(u, k);
        lemma_digits_value_nonneg(u);
        lemma_pow10_pos(frac_digits(u));
        assert(pow10(frac_digits(u)) <= pow10(frac_digits(t))) by {
            if t.last() != '.' && u.contains('.') {
                assert(frac_digits(t) == frac_digits(u) + 1);
                assert(pow10(frac_digits(u) + 1) == 10 * pow10(frac_digits(u)));
            }
        }
    } else {
        assert(t.take(k) =~= t);
    }
}

fn is_digit_exec(c: char) -> (b: bool)
    ensures
        b == is_digit(c),
{
    '0' <= c && c <= '9'
}

fn number_end_exec(s: &Vec<char>, p: usize) -> (e: usize)
    requires
        p <= s@.len(),
    ensures
        e as int == number_end(s@, p as int, false),
        p <= e <= s@.len(),
        forall|i: int| p <= i < e ==> number_char(#[trigger] s@[i]),
{
    let mut e = p;
    let mut seen = false;
    while e < s.len() && (is_digit_exec(s[e]) || (s[e] == '.' && !seen))
        invariant
            p <= e <= s@.len(),
            number_end(s@, p as int, false) == number_end(s@, e as int, seen),
            forall|i: int| p <= i < e ==> number_char(#[trigger] s@[i]),
        decreases s@.len() - e,
    {
        if !is_digit_exec(s[e]) {
            seen = true;
        }
        e += 1;
    }
    e
}

fn parse_number_exec(s: &Vec<char>, p: usize) -> (r: Result<(Rational, usize), CalculatorError>)
    requires
        p <= s@.len(),
    ensures
        pres_view(r) == parse_number_spec(s@, p as int),
        pres_in_range(r),
{
    let q = skip_ws_exec(s, p);
    let e = number_end_exec(s, q);
    let ghost tok = s@.subrange(q as int, e as int);
    if e == q {
        return Err(CalculatorError::ExpectedNumber);
    }
    if e == q + 1 && s[q] == '.' {
        proof {
            assert(tok =~= seq!['.']);
        }
        return Err(CalculatorError::ExpectedNumber);
    }
    proof {
        if tok == seq!['.'] {
            assert(tok.len() == 1);
            assert(tok[0] == s@[q as int]);
        }
        assert forall|i: int| 0 <= i < tok.len() implies number_char(#[trigger] tok[i]) by {
            assert(tok[i] == s@[q + i]);
        }
    }
    let mut num: i128 = 0;
    let mut den: i128 = 1;
    let mut seen = false;
    let mut k = q;
    while k < e
        invariant
            q <= k <= e <= s@.len(),
            p <= q,
            q as int == skip_ws(s@, p as int),
            e as int == number_end(s@, q as int, false),
            e != q,
            tok != seq!['.'],
            tok == s@.subrange(q as int, e as int),
            forall|i: int| 0 <= i < tok.len() ==> number_char(#[trigger] tok[i]),
            num as int == digits_value(tok.take(k - q)),
            den as int == pow10(frac_digits(tok.take(k - q))),
            seen == tok.take(k - q).contains('.'),
            0 <= num <= CALC_LIMIT,
            1 <= den <= CALC_LIMIT,
        decreases e - k,
    {
        let c = s[k];
        let ghost pre = tok.take(k - q);
        let ghost next = tok.take(k - q + 1);
        proof {
            assert(next.drop_last() =~= pre);
            assert(next.last() == c);
        }
        if c == '.' {
            seen = true;
            proof {
                assert(next.contains('.')) by {
                    assert(next[next.len() - 1] == '.');
                }
            }
        } else {
            let d = (c as u32 - 48) as i128;
            let n2 = num * 10 + d;
            let d2 = if seen { den * 10 } else { den };
            proof {
                assert(digits_value(next) == digits_value(pre) * 10 + ((c as u32) - 48));
                assert(n2 as int == digits_value(next));
                if seen {
                    assert(frac_digits(next) == frac_digits(pre) + 1);
                    assert(pow10(frac_digits(pre) + 1) == 10 * pow10(frac_digits(pre)));
                } else {
                    assert(frac_digits(next) == frac_digits(pre));
                }
                assert(d2 as int == pow10(frac_digits(next)));
            }
            proof {
                assert(is_digit(c));
                assert(next.contains('.') == pre.contains('.')) by {
                    if next.contains('.') {
                        let j = choose|j: int| 0 <= j < next.len() && next[j] == '.';
                        if j < pre.len() {
                            assert(pre[j] == '.');
                        }
                    }
                    if pre.contains('.') {
                        let j = choose|j: int| 0 <= j < pre.len() && pre[j] == '.';
                        assert(next[j] == '.');
                    }
                }
            }
            if n2 > CALC_LIMIT || d2 > CALC_LIMIT {
                proof {
                    lemma_number_prefix_mono(tok, k - q + 1);
                    assert(tok.take(tok.len() as int) =~= tok);
                }
                return Err(CalculatorError::TooLarge);
            }
            num = n2;
            den = d2;
        }
        k += 1;
    }
    proof {
        assert(tok.take(e - q) =~= tok);
    }
    Ok((Rational { num, den }, e))
}

fn parse_expr_exec(s: &Vec<char>, p: usize) -> (r: Result<(Rational, usize), CalculatorError>)
    requires
        p <= s@.len(),
    ensures
        pres_view(r) == parse_expr_spec(s@, p as int),
        pres_in_range(r),
    decreases s@.len() - p, 4int,
{
    match parse_term_exec(s, p) {
        Err(e) => Err(e),
        Ok((v, q)) => if p <= q && q <= s.len() {
            parse_expr_tail_exec(s, q, v)
        } else {
            Err(CalculatorError::UnexpectedToken)
        },
    }
}

fn parse_expr_tail_exec(s: &Vec<char>, p: usize, acc: Rational) -> (r: Result<(Rational, usize), CalculatorError>)
    requires
        p <= s@.len(),
        in_range(acc@),
    ensures
        pres_view(r) == parse_expr_tail_spec(s@, p as int, acc@),
        pres_in_range(r),
    decreases s@.len() - p, 3int,
{
    let q = skip_ws_exec(s, p);
    if q < s.len() && (s[q] == '+' || s[q] == '-') {
        match parse_term_exec(s, q + 1) {
            Err(e) => Err(e),
            Ok((w, r)) => {
                match rat_add_sub(acc, w, s[q] == '-') {
                    Err(e) => Err(e),
                    Ok(x) => if q + 1 <= r && r <= s.len() {
                        parse_expr_tail_exec(s, r, x)
                    } else {
                        Err(CalculatorError::UnexpectedToken)
                    },
                }
            },
        }
    } else {
        Ok((acc, q))
    }
}

fn parse_term_exec(s: &Vec<char>, p: usize) -> (r: Result<(Rational, usize), CalculatorError>)
    requires
        p <= s@.len(),
    ensures
        pres_view(r) == parse_term_spec(s@, p as int),
        pres_in_range(r),
    decreases s@.len() - p, 2int,
{
    match parse_factor_exec(s, p) {
        Err(e) => Err(e),
        Ok((v, q)) => if p <= q && q <= s.len() {
            parse_term_tail_exec(s, q, v)
        } else {
            Err(CalculatorError::UnexpectedToken)
        },
    }
}

fn parse_term_tail_exec(s: &Vec<char>, p: usize, acc: Rational) -> (r: Result<(Rational, usize), CalculatorError>)
    requires
        p <= s@.len(),
        in_range(acc@),
    ensures
        pres_view(r) == parse_term_tail_spec(s@, p as int, acc@),
        pres_in_range(r),
    decreases s@.len() - p, 1int,
{
    let q = skip_ws_exec(s, p);
    if q < s.len() && (s[q] == '*' || s[q] == '/') {
        match parse_factor_exec(s, q + 1) {
            Err(e) => Err(e),
            Ok((w, r)) => {
                match rat_mul_div(acc, w, s[q] == '/') {
                    Err(e) => Err(e),
                    Ok(x) => if q + 1 <= r && r <= s.len() {
                        parse_term_tail_exec(s, r, x)
                    } else {
                        Err(CalculatorError::UnexpectedToken)
                    },
                }
            },
        }
    } else {
        Ok((acc, q))
    }
}

fn parse_factor_exec(s: &Vec<char>, p: usize) -> (r: Result<(Rational, usize), CalculatorError>)
    requires
        p <= s@.len(),
    ensures
        pres_view(r) == parse_factor_spec(s@, p as int),
        pres_in_range(r),
    decreases s@.len() - p, 0int,
{
    let q = skip_ws_exec(s, p);
    if q < s.len() && s[q] == '+' {
        parse_factor_exec(s, q + 1)
    } else if q < s.len() && s[q] == '-' {
        match parse_factor_exec(s, q + 1) {
            Err(e) => Err(e),
            Ok((v, r)) => Ok((Rational { num: -v.num, den: v.den }, r)),
        }
    } else if q < s.len() && s[q] == '(' {
        match parse_expr_exec(s, q + 1) {
            Err(e) => Err(e),
            Ok((v, r)) => {
                if r > s.len() {
                    return Err(CalculatorError::UnclosedParenthesis);
                }
                let t = skip_ws_exec(s, r);
                if t < s.len() && s[t] == ')' {
                    Ok((v, t + 1))
                } else {
                    Err(CalculatorError::UnclosedParenthesis)
                }
            },
        }
    } else {
        parse_number_exec(s, q)
    }
}

/// Evaluate a whole expression.
pub fn evaluate_expression(expression: &str) -> (r: Result<Rational, CalculatorError>)
    ensures
        match r {
            Ok(v) => evaluate_spec(expression@) == Ok::<RatV, CalculatorError>(v@) && in_range(v@),
            Err(e) => evaluate_spec(expression@) == Err::<RatV, CalculatorError>(e),
        },
{
    let s = chars_of(expression);
    match parse_expr_exec(&s, 0) {
        Err(e) => Err(e),
        Ok((v, p)) => {
            if p >= s.len() {
                return Ok(v);
            }
            let q = skip_ws_exec(&s, p);
            if q >= s.len() {
                Ok(v)
            } else {
                Err(CalculatorError::UnexpectedToken)
            }
        },
    }
}


/// The `w` low decimal digits of `n`, with leading zeros.
pub open spec fn pad_digits(n: nat, w: nat) -> Seq<char>
    decreases w,
{
    if w == 0 {
        Seq::empty()
    } else {
        pad_digits(n / 10, (w - 1) as nat).push(crate::text::digit_char(n % 10))
    }
}

pub open spec fn strip_trailing_zeros(s: Seq<char>) -> Seq<char>
    decreases s.len(),
{
    if s.len() > 0 && s.last() == '0' {
        strip_trailing_zeros(s.drop_last())
    } else {
        s
    }
}

pub open spec fn scale10() -> int {
    10_000_000_000
}

/// How a value is shown: whole numbers without a fraction, other values
/// rounded to ten decimals (halves away from zero) without trailing zeros.
pub open spec fn format_rat(v: RatV) -> Seq<char> {
    let n = v.0;
    let d = v.1;
    let x = if n < 0 { -n } else { n };
    let sign = if n < 0 { "-"@ } else { Seq::<char>::empty() };
    if x % d == 0 {
        sign + nat_digits((x / d) as nat)
    } else {
        let scaled = (2 * x * scale10() + d) / (2 * d);
        let ip = scaled / scale10();
        let fp = scaled % scale10();
        sign + nat_digits(ip as nat) + if fp == 0 {
            Seq::<char>::empty()
        } else {
            "."@ + strip_trailing_zeros(pad_digits(fp as nat, 10))
        }
    }
}

fn pad_digits_exec(n: u64, w: u64) -> (r: Vec<char>)
    ensures
        r@ == pad_digits(n as nat, w as nat),
    decreases w,
{
    if w == 0 {
        Vec::new()
    } else {
        let mut r = pad_digits_exec(n / 10, w - 1);
        let c = crate::text::char_from_ascii_code((48 + n % 10) as u32);
        r.push(c);
        r
    }
}

fn strip_trailing_zeros_exec(v: &Vec<char>) -> (r: Vec<char>)
    ensures
        r@ == strip_trailing_zeros(v@),
{
    let mut j = v.len();
    proof {
        assert(v@.subrange(0, v@.len() as int) =~= v@);
    }
    while j > 0 && v[j - 1] == '0'
        invariant
            j <= v@.len(),
            strip_trailing_zeros(v@) == strip_trailing_zeros(v@.subrange(0, j as int)),
        decreases j,
    {
        proof {
            assert(v@.subrange(0, j as int).drop_last() =~= v@.subrange(0, j - 1));
        }
        j -= 1;
    }
    sub_chars(v, 0, j)
}

/// Show a calculator value.
pub fn format_number(v: Rational) -> (s: String)
    requires
        in_range(v@),
    ensures
        s@ == format_rat(v@),
{
    let n = v.num;
    let d = v.den;
    let x: i128 = if n < 0 { -n } else { n };
    let mut out = if n < 0 { lit("-") } else { String::new() };
    let ghost sign = if n < 0 { "-"@ } else { Seq::<char>::empty() };
    if x % d == 0 {
        let q = (x / d) as u64;
        append_str(&mut out, u64_to_decimal(q).as_str());
        out
    } else {
        proof {
            assert(2 * x * 10_000_000_000 + d <= 30_000_000_000_000_000_000_000_000_000int) by (nonlinear_arith)
                requires
                    0 <= x <= 1_000_000_000_000_000_000int,
                    1 <= d <= 1_000_000_000_000_000_000int,
            ;
        }
        let scaled = (2 * x * 10_000_000_000 + d) / (2 * d);
        proof {
            assert(scaled <= 2 * x * 10_000_000_000 + d) by (nonlinear_arith)
                requires
                    scaled == (2 * x * 10_000_000_000 + d) / (2 * d),
                    d >= 1,
                    x >= 0,
            ;
        }
        let ip = (scaled / 10_000_000_000) as u64;
        let fp = (scaled % 10_000_000_000) as u64;
        append_str(&mut out, u64_to_decimal(ip).as_str());
        if fp != 0 {
            append_str(&mut out, ".");
            let digits = pad_digits_exec(fp, 10);
            let stripped = strip_trailing_zeros_exec(&digits);
            append_str(&mut out, string_from_chars(&stripped).as_str());
        }
        proof {
            if fp == 0 {
                assert(out@ =~= sign + nat_digits(ip as nat) + Seq::<char>::empty());
            }
        }
        out
    }
}

/// The expression of a `calc <expression>` query.
pub open spec fn expression_spec(query: Seq<char>) -> Option<Seq<char>> {
    let t = trim_seq(query);
    if seq_starts_with(t, "calc "@) {
        let e = trim_seq(t.skip(5));
        if e.len() > 0 {
            Some(e)
        } else {
            None
        }
    } else {
        None
    }
}

pub fn expression_from_query(query: &str) -> (r: Option<String>)
    ensures
        match r {
            Some(e) => expression_spec(query@) == Some(e@),
            None => expression_spec(query@) is None,
        },
{
    let v = chars_of(query);
    let t = trim_chars(&v);
    let prefix = chars_of("calc ");
    proof {
        reveal_strlit("calc ");
    }
    if crate::text::chars_starts_with(&t, &prefix) {
        let rest = sub_chars(&t, 5, t.len());
        proof {
            assert(rest@ =~= t@.skip(5));
        }
        let e = trim_chars(&rest);
        if e.len() > 0 {
            Some(string_from_chars(&e))
        } else {
            None
        }
    } else {
        None
    }
}

pub struct CalculatorProvider;

pub open spec fn calc_result_view(expression: Seq<char>, value: Seq<char>) -> SearchResultView {
    SearchResultView {
        subtitle: Some("Calculator"@),
        keywords: seq!["calc"@, "calculator"@],
        score_hint: CALCULATOR_SCORE_HINT,
        ..new_result_view(
            "calculator"@,
            "calc:"@ + expression,
            trim_seq(expression) + " = "@ + value,
            ResultKind::Calculator,
            ActionView::CopyText { text: value },
        )
    }
}

/// Results of a calculator search; `Err` carries the evaluation error.
pub open spec fn calc_search_spec(query: Seq<char>) -> Result<Seq<SearchResultView>, CalculatorError> {
    match expression_spec(query) {
        None => Ok(Seq::empty()),
        Some(e) => match evaluate_spec(e) {
            Err(err) => Err(err),
            Ok(v) => Ok(seq![calc_result_view(e, format_rat(v))]),
        },
    }
}

pub open spec fn calc_copy_message(text: Seq<char>) -> Seq<char> {
    "calculator result ready to copy: "@ + text
}

impl Provider for CalculatorProvider {
    open spec fn id_spec(&self) -> Seq<char> {
        "calculator"@
    }

    open spec fn search_spec(&self, query: Seq<char>, limit: usize) -> Result<Seq<SearchResultView>, PluginErrorView> {
        match calc_search_spec(query) {
            Ok(sv) => Ok(sv),
            Err(e) => Err(PluginErrorView::InvalidQuery(calculator_error_text(e))),
        }
    }

    open spec fn execute_spec(&self, action: ActionView) -> Result<StepView, PluginErrorView> {
        match action {
            ActionView::CopyText { text } => Ok(StepView::Done(calc_copy_message(text))),
            _ => Err(PluginErrorView::UnsupportedAction),
        }
    }

    fn id(&self) -> (r: ProviderId)
        ensures
            r@ == "calculator"@,
    {
        ProviderId::new("calculator")
    }

    fn search(&self, context: &SearchContext) -> (r: Result<Vec<SearchResult>, PluginError>)
        ensures
            match (r, calc_search_spec(context.query@)) {
                (Ok(v), Ok(sv)) => results_view(v@) == sv,
                (Err(PluginError::InvalidQuery(m)), Err(e)) => m@ == calculator_error_text(e),
                _ => false,
            },
    {
        let mut out: Vec<SearchResult> = Vec::new();
        match expression_from_query(context.query.raw()) {
            None => {
                proof {
                    assert(results_view(out@) =~= Seq::<SearchResultView>::empty());
                }
                Ok(out)
            },
            Some(expression) => match evaluate_expression(expression.as_str()) {
                Err(e) => Err(PluginError::InvalidQuery(e.message())),
                Ok(value) => {
                    let formatted = format_number(value);
                    let id = concat2("calc:", expression.as_str());
                    let mut title = trim(expression.as_str());
                    append_str(&mut title, " = ");
                    append_str(&mut title, formatted.as_str());
                    let result = SearchResult::from_parts(
                        self.id(),
                        id,
                        title,
                        ResultKind::Calculator,
                        Action::CopyText { text: formatted },
                    ).with_subtitle("Calculator").with_keywords(strings2("calc", "calculator"))
                        .with_score_hint(CALCULATOR_SCORE_HINT);
                    out.push(result);
                    proof {
                        assert(results_view(out@) =~= seq![out@[0]@]);
                    }
                    Ok(out)
                },
            },
        }
    }

    fn execute(&self, action: &Action) -> (r: Result<ExecutionStep, PluginError>)
        ensures
            match action {
                Action::CopyText { text } => r matches Ok(ExecutionStep::Done(o)) && o.message@ == calc_copy_message(text@),
                _ => r == Err::<ExecutionStep, PluginError>(PluginError::UnsupportedAction),
            },
    {
        match action {
            Action::CopyText { text } => Ok(ExecutionStep::Done(ActionOutcome::new(concat2("calculator result ready to copy: ", text.as_str())))),
            _ => Err(PluginError::UnsupportedAction),
        }
    }
}


/// The value a fraction stands for agrees with `x / y` for integers `x` and
/// `y > 0`, compared by cross-multiplication.
pub open spec fn same_value(v: RatV, x: int, y: int) -> bool {
    v.0 * y == x * v.1
}

/// Arithmetic on in-range fractions means arithmetic on their values:
/// value(a + b) = value(a) + value(b), value(a - b) = value(a) - value(b),
/// value(a * b) = value(a) * value(b), and value(a / b) = value(a) / value(b)
/// for a non-zero divisor; a result always has a positive denominator; and
/// an in-range result of the exact arithmetic is always given, not refused.
pub proof fn law_rational_arithmetic(a: RatV, b: RatV)
    requires
        in_range(a),
        in_range(b),
    ensures
        rat_add(a, b) matches Ok(r) ==> r.1 > 0 && same_value(r, a.0 * b.1 + b.0 * a.1, a.1 * b.1),
        rat_sub(a, b) matches Ok(r) ==> r.1 > 0 && same_value(r, a.0 * b.1 - b.0 * a.1, a.1 * b.1),
        rat_mul(a, b) matches Ok(r) ==> r.1 > 0 && same_value(r, a.0 * b.0, a.1 * b.1),
        rat_div(a, b) matches Ok(r) ==> b.0 != 0 && r.1 > 0 && same_value(r, a.0 * b.1, a.1 * b.0),
        rat_div(a, b) is Err ==> (b.0 == 0 <==> rat_div(a, b) == Err::<RatV, CalculatorError>(CalculatorError::DivisionByZero)),
        in_range((a.0 * b.1 - b.0 * a.1, a.1 * b.1)) ==> rat_sub(a, b) is Ok,
        in_range((a.0 * b.1 + b.0 * a.1, a.1 * b.1)) ==> rat_add(a, b) is Ok,
{
    let d = a.1 * b.1;
    let s = a.0 * b.1 - b.0 * a.1;
    let t = a.0 * b.1 + b.0 * a.1;
    assert(s * d == s * d);
    assert(t * d == t * d);
    assert((a.0 * b.0) * d == (a.0 * b.0) * d);
    if b.0 > 0 {
        assert((a.0 * b.1) * (a.1 * b.0) == (a.0 * b.1) * (a.1 * b.0));
    } else if b.0 < 0 {
        assert((-(a.0 * b.1)) * (a.1 * b.0) == (a.0 * b.1) * (-(a.1 * b.0))) by (nonlinear_arith);
    }
}

/// Reading `+ term` or `- term` after a value `acc` continues with the sum or
/// the difference: the value carried on is acc + term or acc - term (in
/// that order), and reading fails only where that exact value is out of
/// range.
pub proof fn law_sum_and_difference_terms(s: Seq<char>, p: int, acc: RatV)
    requires
        in_range(acc),
        0 <= p <= skip_ws(s, p) < s.len(),
        s[skip_ws(s, p)] == '+' || s[skip_ws(s, p)] == '-',
    ensures
        ({
            let q = skip_ws(s, p);
            match parse_term_spec(s, q + 1) {
                Ok((w, r)) => (in_range(w) && q + 1 <= r <= s.len()) ==> {
                    let n = if s[q] == '+' { acc.0 * w.1 + w.0 * acc.1 } else { acc.0 * w.1 - w.0 * acc.1 };
                    let d = acc.1 * w.1;
                    &&& in_range((n, d)) ==> parse_expr_tail_spec(s, p, acc) == parse_expr_tail_spec(s, r, (n, d))
                    &&& !in_range((n, d)) ==> parse_expr_tail_spec(s, p, acc) == Err::<(RatV, int), CalculatorError>(CalculatorError::TooLarge)
                },
                Err(_) => true,
            }
        }),
{
    let q = skip_ws(s, p);
    match parse_term_spec(s, q + 1) {
        Ok((w, r)) => {
            if in_range(w) {
                law_rational_arithmetic(acc, w);
            }
        },
        Err(_) => {},
    }
}
} // verus!
