//! The typed column-value renderer: every wire-level column kind becomes one
//! canonical display string, with a deterministic type-appropriate zero value
//! substituted for null.

use vstd::prelude::*;

use crate::error::Error;
use crate::numfmt::dec_digits;
use crate::numfmt::hex_byte;
use crate::numfmt::int_digits;
use crate::numfmt::i128_to_string;
use crate::numfmt::push_decimal;
use crate::numfmt::push_decimal_padded;
use crate::numfmt::push_hex_byte;
use crate::numfmt::u128_to_string;
use crate::numfmt::zero_pad;

verus! {

/// A calendar date, as the renderer reads it: plain year, month and day.
#[derive(Clone, Copy, Debug)]
pub struct DateValue {
    pub year: u16,
    pub month: u8,
    pub day: u8,
}

impl DateValue {
    /// Within calendar bounds, so the rendering is always `YYYY-MM-DD`.
    pub open spec fn wf(&self) -> bool {
        1 <= self.year <= 9999 && 1 <= self.month <= 12 && 1 <= self.day <= 31
    }
}

/// A time of day, as the renderer reads it, with a nanosecond fraction.
#[derive(Clone, Copy, Debug)]
pub struct TimeValue {
    pub hour: u8,
    pub minute: u8,
    pub second: u8,
    pub nanosecond: u32,
}

impl TimeValue {
    /// Within clock bounds, so the rendering is always `HH:MM:SS` plus an
    /// optional fraction.
    pub open spec fn wf(&self) -> bool {
        self.hour < 24 && self.minute < 60 && self.second < 60 && self.nanosecond < 1000000000
    }
}

/// A date and a time of day together.
#[derive(Clone, Copy, Debug)]
pub struct DateTimeValue {
    pub date: DateValue,
    pub time: TimeValue,
}

impl DateTimeValue {
    pub open spec fn wf(&self) -> bool {
        self.date.wf() && self.time.wf()
    }
}

/// A decimal value scaled by a power of ten: the integer `value` stands for
/// `value / 10^scale`.
#[derive(Clone, Copy, Debug)]
pub struct NumericValue {
    pub value: i128,
    pub scale: u8,
}

impl NumericValue {
    /// The largest scale the wire format allows; `10^38` still fits the
    /// magnitude arithmetic of the renderer.
    pub open spec fn wf(&self) -> bool {
        self.scale <= 38
    }
}

/// One cell of a result row. Each variant is nullable independent of its
/// tag. The float variants carry the decimal text of the value, produced by
/// the caller, since floating point stays outside the verified core.
pub enum ColumnValue {
    /// 8-bit integer, unsigned.
    U8(Option<u8>),
    /// 16-bit integer, signed.
    I16(Option<i16>),
    /// 32-bit integer, signed.
    I32(Option<i32>),
    /// 64-bit integer, signed.
    I64(Option<i64>),
    /// 32-bit floating point number, as its decimal text.
    F32(Option<String>),
    /// 64-bit floating point number, as its decimal text.
    F64(Option<String>),
    /// Boolean.
    Bit(Option<bool>),
    /// A string value.
    Text(Option<String>),
    /// A GUID, as its 16 bytes in display order.
    Guid(Option<[u8; 16]>),
    /// Binary data.
    Binary(Option<Vec<u8>>),
    /// Numeric value (a decimal).
    Numeric(Option<NumericValue>),
    /// XML data; rendered as a fixed placeholder.
    Xml(Option<String>),
    /// DateTime value.
    DateTime(Option<DateTimeValue>),
    /// A small DateTime value.
    SmallDateTime(Option<DateTimeValue>),
    /// Time value.
    Time(Option<TimeValue>),
    /// Date value.
    Date(Option<DateValue>),
    /// DateTime2 value.
    DateTime2(Option<DateTimeValue>),
    /// DateTime value with a UTC offset, normalized to UTC.
    DateTimeOffset(Option<DateTimeValue>),
}

/// `10^e`.
pub open spec fn pow10(e: nat) -> nat
    decreases e,
{
    if e == 0 {
        1
    } else {
        10 * pow10((e - 1) as nat)
    }
}

/// The display text of a date: `YYYY-MM-DD`.
pub open spec fn date_text(d: DateValue) -> Seq<char> {
    zero_pad(dec_digits(d.year as nat), 4) + "-"@ + zero_pad(dec_digits(d.month as nat), 2) + "-"@
        + zero_pad(dec_digits(d.day as nat), 2)
}

/// The fraction suffix of a time: empty for a whole second, else a dot and
/// the shortest of 3, 6 or 9 digits that carries the nanoseconds exactly.
pub open spec fn frac_text(n: u32) -> Seq<char> {
    if n == 0 {
        Seq::empty()
    } else if n % 1000000 == 0 {
        "."@ + zero_pad(dec_digits((n / 1000000) as nat), 3)
    } else if n % 1000 == 0 {
        "."@ + zero_pad(dec_digits((n / 1000) as nat), 6)
    } else {
        "."@ + zero_pad(dec_digits(n as nat), 9)
    }
}

/// The display text of a time of day: `HH:MM:SS` plus the fraction suffix.
pub open spec fn time_text(t: TimeValue) -> Seq<char> {
    zero_pad(dec_digits(t.hour as nat), 2) + ":"@ + zero_pad(dec_digits(t.minute as nat), 2) + ":"@
        + zero_pad(dec_digits(t.second as nat), 2) + frac_text(t.nanosecond)
}

/// The display text of a date and time: the two parts joined by one space.
pub open spec fn datetime_text(dt: DateTimeValue) -> Seq<char> {
    date_text(dt.date) + " "@ + time_text(dt.time)
}

/// The display text of a scaled decimal: sign, integer part, a dot, and the
/// decimal part zero-padded to the scale.
pub open spec fn numeric_text(n: NumericValue) -> Seq<char> {
    let mag = if n.value < 0 {
        (-(n.value as int)) as nat
    } else {
        n.value as nat
    };
    let p = pow10(n.scale as nat);
    (if n.value < 0 {
        "-"@
    } else {
        Seq::<char>::empty()
    }) + dec_digits(mag / p) + "."@ + zero_pad(dec_digits(mag % p), n.scale as nat)
}

/// The display text of a GUID: its 16 bytes as lowercase hexadecimal in
/// five hyphen-separated groups.
pub open spec fn guid_text(b: Seq<u8>) -> Seq<char> {
    hex_byte(b[0]) + hex_byte(b[1]) + hex_byte(b[2]) + hex_byte(b[3]) + "-"@ + hex_byte(b[4])
        + hex_byte(b[5]) + "-"@ + hex_byte(b[6]) + hex_byte(b[7]) + "-"@ + hex_byte(b[8])
        + hex_byte(b[9]) + "-"@ + hex_byte(b[10]) + hex_byte(b[11]) + hex_byte(b[12]) + hex_byte(
        b[13],
    ) + hex_byte(b[14]) + hex_byte(b[15])
}

/// The bytes of a binary value, comma-separated, without the brackets.
pub open spec fn bytes_debug_inner(b: Seq<u8>) -> Seq<char>
    decreases b.len(),
{
    if b.len() == 0 {
        Seq::empty()
    } else if b.len() == 1 {
        dec_digits(b[0] as nat)
    } else {
        bytes_debug_inner(b.drop_last()) + ", "@ + dec_digits(b.last() as nat)
    }
}

/// The display text of a binary value: a bracketed byte listing.
pub open spec fn bytes_debug(b: Seq<u8>) -> Seq<char> {
    "["@ + bytes_debug_inner(b) + "]"@
}

/// The display text of one cell, per the stringification rule table; a null
/// renders its type's zero value, never an empty marker.
pub open spec fn rendered_text(v: ColumnValue) -> Seq<char> {
    match v {
        ColumnValue::U8(n) => match n {
            Some(x) => dec_digits(x as nat),
            None => dec_digits(0),
        },
        ColumnValue::I16(n) => match n {
            Some(x) => int_digits(x as int),
            None => dec_digits(0),
        },
        ColumnValue::I32(n) => match n {
            Some(x) => int_digits(x as int),
            None => dec_digits(0),
        },
        ColumnValue::I64(n) => match n {
            Some(x) => int_digits(x as int),
            None => dec_digits(0),
        },
        ColumnValue::F32(t) => match t {
            Some(s) => s@,
            None => dec_digits(0),
        },
        ColumnValue::F64(t) => match t {
            Some(s) => s@,
            None => dec_digits(0),
        },
        ColumnValue::Bit(b) => match b {
            Some(true) => "true"@,
            _ => "false"@,
        },
        ColumnValue::Text(s) => match s {
            Some(x) => x@,
            None => Seq::empty(),
        },
        ColumnValue::Guid(g) => match g {
            Some(bytes) => guid_text(bytes@),
            None => guid_text(Seq::new(16, |i: int| 0u8)),
        },
        ColumnValue::Binary(b) => match b {
            Some(bytes) => bytes_debug(bytes@),
            None => bytes_debug(Seq::empty()),
        },
        ColumnValue::Numeric(n) => match n {
            Some(x) => numeric_text(x),
            None => numeric_text(NumericValue { value: 0, scale: 0 }),
        },
        ColumnValue::Xml(_) => dec_digits(1),
        ColumnValue::DateTime(dt) => match dt {
            Some(x) => datetime_text(x),
            None => datetime_text(epoch_datetime()),
        },
        ColumnValue::SmallDateTime(dt) => match dt {
            Some(x) => datetime_text(x),
            None => datetime_text(epoch_datetime()),
        },
        ColumnValue::Time(t) => match t {
            Some(x) => time_text(x),
            None => time_text(midnight()),
        },
        ColumnValue::Date(d) => match d {
            Some(x) => date_text(x),
            None => date_text(epoch_date()),
        },
        ColumnValue::DateTime2(dt) => match dt {
            Some(x) => datetime_text(x),
            None => datetime_text(epoch_datetime()),
        },
        ColumnValue::DateTimeOffset(dt) => match dt {
            Some(x) => datetime_text(x) + " UTC"@,
            None => datetime_text(epoch_datetime()) + " UTC"@,
        },
    }
}

/// The date of the Unix epoch, the null default for date kinds.
pub open spec fn epoch_date() -> DateValue {
    DateValue { year: 1970, month: 1, day: 1 }
}

/// The start of a day, the null default for the time kind.
pub open spec fn midnight() -> TimeValue {
    TimeValue { hour: 0, minute: 0, second: 0, nanosecond: 0 }
}

/// The Unix epoch instant, the null default for datetime kinds.
pub open spec fn epoch_datetime() -> DateTimeValue {
    DateTimeValue { date: epoch_date(), time: midnight() }
}

impl ColumnValue {
    /// Every value the renderer reads is within its kind's bounds.
    pub open spec fn wf(&self) -> bool {
        match self {
            ColumnValue::Numeric(Some(n)) => n.wf(),
            ColumnValue::DateTime(Some(dt)) => dt.wf(),
            ColumnValue::SmallDateTime(Some(dt)) => dt.wf(),
            ColumnValue::Time(Some(t)) => t.wf(),
            ColumnValue::Date(Some(d)) => d.wf(),
            ColumnValue::DateTime2(Some(dt)) => dt.wf(),
            ColumnValue::DateTimeOffset(Some(dt)) => dt.wf(),
            _ => true,
        }
    }
}

/// Conversion of one typed cell to its canonical display string.
pub trait ColumnString {
    /// The display text this value renders to.
    spec fn rendered(&self) -> Seq<char>;

    /// Whether the value is within its kind's bounds.
    spec fn renderable(&self) -> bool;

    /// Render the value to its display text.
    fn to_string(&self) -> (r: String)
        requires
            self.renderable(),
        ensures
            r@ == self.rendered(),
    ;
}

fn push_date(s: &mut String, d: DateValue)
    ensures
        final(s)@ == old(s)@ + date_text(d),
{
    push_decimal_padded(s, d.year as u128, 4);
    s.append("-");
    push_decimal_padded(s, d.month as u128, 2);
    s.append("-");
    push_decimal_padded(s, d.day as u128, 2);
    proof {
        assert(s@ =~= old(s)@ + date_text(d));
    }
}

fn push_time(s: &mut String, t: TimeValue)
    ensures
        final(s)@ == old(s)@ + time_text(t),
{
    push_decimal_padded(s, t.hour as u128, 2);
    s.append(":");
    push_decimal_padded(s, t.minute as u128, 2);
    s.append(":");
    push_decimal_padded(s, t.second as u128, 2);
    if t.nanosecond != 0 {
        s.append(".");
        if t.nanosecond % 1000000 == 0 {
            push_decimal_padded(s, (t.nanosecond / 1000000) as u128, 3);
        } else if t.nanosecond % 1000 == 0 {
            push_decimal_padded(s, (t.nanosecond / 1000) as u128, 6);
        } else {
            push_decimal_padded(s, t.nanosecond as u128, 9);
        }
    }
    proof {
        assert(s@ =~= old(s)@ + time_text(t));
    }
}

fn push_datetime(s: &mut String, dt: DateTimeValue)
    ensures
        final(s)@ == old(s)@ + datetime_text(dt),
{
    push_date(s, dt.date);
    s.append(" ");
    push_time(s, dt.time);
    proof {
        assert(s@ =~= old(s)@ + datetime_text(dt));
    }
}

proof fn lemma_pow10_pos(e: nat)
    ensures
        pow10(e) >= 1,
    decreases e,
{
    if e > 0 {
        lemma_pow10_pos((e - 1) as nat);
    }
}

proof fn lemma_pow10_increases(a: nat, b: nat)
    requires
        a <= b,
    ensures
        pow10(a) <= pow10(b),
    decreases b,
{
    if a < b {
        lemma_pow10_increases(a, (b - 1) as nat);
        lemma_pow10_pos((b - 1) as nat);
    }
}

fn pow10_u128(e: u8) -> (r: u128)
    requires
        e <= 38,
    ensures
        r as nat == pow10(e as nat),
        r >= 1,
{
    proof {
        reveal_with_fuel(pow10, 40);
        assert(pow10(38) == 0x4b3b4ca85a86c47a098a224000000000);
    }
    let mut r: u128 = 1;
    let mut i: u8 = 0;
    while i < e
        invariant
            i <= e,
            e <= 38,
            r as nat == pow10(i as nat),
            pow10(38) == 0x4b3b4ca85a86c47a098a224000000000,
        decreases e - i,
    {
        proof {
            lemma_pow10_increases((i + 1) as nat, 38);
        }
        r = r * 10;
        i = i + 1;
    }
    proof {
        lemma_pow10_pos(e as nat);
    }
    r
}

fn render_numeric(n: NumericValue) -> (r: String)
    requires
        n.wf(),
    ensures
        r@ == numeric_text(n),
{
    let mag: u128 = if n.value >= 0 {
        n.value as u128
    } else {
        ((-(n.value + 1)) as u128) + 1
    };
    proof {
        assert(mag as nat == (if n.value < 0 {
            (-(n.value as int)) as nat
        } else {
            n.value as nat
        }));
    }
    let p = pow10_u128(n.scale);
    let mut s = String::new();
    if n.value < 0 {
        s.append("-");
    }
    push_decimal(&mut s, mag / p);
    s.append(".");
    push_decimal_padded(&mut s, mag % p, n.scale as usize);
    proof {
        assert(s@ =~= numeric_text(n));
    }
    s
}

fn render_guid(b: &[u8; 16]) -> (r: String)
    ensures
        r@ == guid_text(b@),
{
    let mut s = String::new();
    push_hex_byte(&mut s, b[0]);
    push_hex_byte(&mut s, b[1]);
    push_hex_byte(&mut s, b[2]);
    push_hex_byte(&mut s, b[3]);
    s.append("-");
    push_hex_byte(&mut s, b[4]);
    push_hex_byte(&mut s, b[5]);
    s.append("-");
    push_hex_byte(&mut s, b[6]);
    push_hex_byte(&mut s, b[7]);
    s.append("-");
    push_hex_byte(&mut s, b[8]);
    push_hex_byte(&mut s, b[9]);
    s.append("-");
    push_hex_byte(&mut s, b[10]);
    push_hex_byte(&mut s, b[11]);
    push_hex_byte(&mut s, b[12]);
    push_hex_byte(&mut s, b[13]);
    push_hex_byte(&mut s, b[14]);
    push_hex_byte(&mut s, b[15]);
    proof {
        assert(s@ =~= guid_text(b@));
    }
    s
}

fn render_binary(b: &Vec<u8>) -> (r: String)
    ensures
        r@ == bytes_debug(b@),
{
    let mut s = String::new();
    s.append("[");
    let n = b.len();
    let mut i: usize = 0;
    while i < n
        invariant
            n == b@.len(),
            i <= n,
            s@ == "["@ + bytes_debug_inner(b@.take(i as int)),
        decreases n - i,
    {
        if i > 0 {
            s.append(", ");
        }
        push_decimal(&mut s, b[i] as u128);
        i = i + 1;
        proof {
            assert(b@.take(i as int).drop_last() =~= b@.take(i as int - 1));
            assert(s@ =~= "["@ + bytes_debug_inner(b@.take(i as int)));
        }
    }
    proof {
        assert(b@.take(n as int) =~= b@);
    }
    s.append("]");
    proof {
        assert(s@ =~= bytes_debug(b@));
    }
    s
}

impl ColumnString for ColumnValue {
    open spec fn rendered(&self) -> Seq<char> {
        rendered_text(*self)
    }

    open spec fn renderable(&self) -> bool {
        self.wf()
    }

    fn to_string(&self) -> (r: String) {
        match self {
            ColumnValue::U8(n) => match n {
                Some(x) => u128_to_string(*x as u128),
                None => u128_to_string(0),
            },
            ColumnValue::I16(n) => match n {
                Some(x) => i128_to_string(*x as i128),
                None => u128_to_string(0),
            },
            ColumnValue::I32(n) => match n {
                Some(x) => i128_to_string(*x as i128),
                None => u128_to_string(0),
            },
            ColumnValue::I64(n) => match n {
                Some(x) => i128_to_string(*x as i128),
                None => u128_to_string(0),
            },
            ColumnValue::F32(t) => match t {
                Some(s) => s.clone(),
                None => u128_to_string(0),
            },
            ColumnValue::F64(t) => match t {
                Some(s) => s.clone(),
                None => u128_to_string(0),
            },
            ColumnValue::Bit(b) => {
                let mut s = String::new();
                match b {
                    Some(true) => s.append("true"),
                    _ => s.append("false"),
                }
                proof {
                    assert(s@ =~= rendered_text(*self));
                }
                s
            },
            ColumnValue::Text(t) => match t {
                Some(s) => s.clone(),
                None => String::new(),
            },
            ColumnValue::Guid(g) => match g {
                Some(bytes) => render_guid(bytes),
                None => {
                    let zero: [u8; 16] = [0u8; 16];
                    proof {
                        assert(zero@ =~= Seq::new(16, |i: int| 0u8));
                    }
                    render_guid(&zero)
                },
            },
            ColumnValue::Binary(b) => match b {
                Some(bytes) => render_binary(bytes),
                None => {
                    let empty: Vec<u8> = Vec::new();
                    render_binary(&empty)
                },
            },
            ColumnValue::Numeric(n) => match n {
                Some(x) => render_numeric(*x),
                None => render_numeric(NumericValue { value: 0, scale: 0 }),
            },
            ColumnValue::Xml(_) => u128_to_string(1),
            ColumnValue::DateTime(dt) => {
                let v = match dt {
                    Some(x) => *x,
                    None => DateTimeValue {
                        date: DateValue { year: 1970, month: 1, day: 1 },
                        time: TimeValue { hour: 0, minute: 0, second: 0, nanosecond: 0 },
                    },
                };
                let mut s = String::new();
                push_datetime(&mut s, v);
                proof {
                    assert(s@ =~= rendered_text(*self));
                }
                s
            },
            ColumnValue::SmallDateTime(dt) => {
                let v = match dt {
                    Some(x) => *x,
                    None => DateTimeValue {
                        date: DateValue { year: 1970, month: 1, day: 1 },
                        time: TimeValue { hour: 0, minute: 0, second: 0, nanosecond: 0 },
                    },
                };
                let mut s = String::new();
                push_datetime(&mut s, v);
                proof {
                    assert(s@ =~= rendered_text(*self));
                }
                s
            },
            ColumnValue::Time(t) => {
                let v = match t {
                    Some(x) => *x,
                    None => TimeValue { hour: 0, minute: 0, second: 0, nanosecond: 0 },
                };
                let mut s = String::new();
                push_time(&mut s, v);
                proof {
                    assert(s@ =~= rendered_text(*self));
                }
                s
            },
            ColumnValue::Date(d) => {
                let v = match d {
                    Some(x) => *x,
                    None => DateValue { year: 1970, month: 1, day: 1 },
                };
                let mut s = String::new();
                push_date(&mut s, v);
                proof {
                    assert(s@ =~= rendered_text(*self));
                }
                s
            },
            ColumnValue::DateTime2(dt) => {
                let v = match dt {
                    Some(x) => *x,
                    None => DateTimeValue {
                        date: DateValue { year: 1970, month: 1, day: 1 },
                        time: TimeValue { hour: 0, minute: 0, second: 0, nanosecond: 0 },
                    },
                };
                let mut s = String::new();
                push_datetime(&mut s, v);
                proof {
                    assert(s@ =~= rendered_text(*self));
                }
                s
            },
            ColumnValue::DateTimeOffset(dt) => {
                let v = match dt {
                    Some(x) => *x,
                    None => DateTimeValue {
                        date: DateValue { year: 1970, month: 1, day: 1 },
                        time: TimeValue { hour: 0, minute: 0, second: 0, nanosecond: 0 },
                    },
                };
                let mut s = String::new();
                push_datetime(&mut s, v);
                s.append(" UTC");
                proof {
                    assert(s@ =~= rendered_text(*self));
                }
                s
            },
        }
    }
}

/// One rendered row: the names kept in order, each value replaced by its
/// display text.
pub open spec fn rendered_row(out: Seq<(String, String)>, row: Seq<(String, ColumnValue)>) -> bool {
    out.len() == row.len() && (forall|j: int|
        0 <= j < row.len() ==> (#[trigger] out[j]).0@ == row[j].0@ && out[j].1@ == rendered_text(
            row[j].1,
        ))
}

/// Every value of a row is within its kind's bounds.
pub open spec fn row_wf(row: Seq<(String, ColumnValue)>) -> bool {
    forall|j: int| 0 <= j < row.len() ==> (#[trigger] row[j]).1.wf()
}

/// Render every row to (column name, display string) pairs, keeping the
/// column ordering of the response. Zero rows are a reported condition of their
/// own, never an empty printed table.
pub fn render_rows(rows: &Vec<Vec<(String, ColumnValue)>>) -> (r: Result<
    Vec<Vec<(String, String)>>,
    Error,
>)
    requires
        forall|i: int| 0 <= i < rows@.len() ==> row_wf((#[trigger] rows@[i])@),
    ensures
        match r {
            Ok(out) => rows@.len() > 0 && out@.len() == rows@.len() && (forall|i: int|
                0 <= i < rows@.len() ==> rendered_row((#[trigger] out@[i])@, rows@[i]@)),
            Err(e) => rows@.len() == 0 && e == Error::EmptyResult,
        },
{
    if rows.len() == 0 {
        return Err(Error::EmptyResult);
    }
    let mut out: Vec<Vec<(String, String)>> = Vec::new();
    let n = rows.len();
    let mut i: usize = 0;
    while i < n
        invariant
            n == rows@.len(),
            i <= n,
            out@.len() == i,
            forall|k: int| 0 <= k < n ==> row_wf((#[trigger] rows@[k])@),
            forall|k: int| 0 <= k < i ==> rendered_row((#[trigger] out@[k])@, rows@[k]@),
        decreases n - i,
    {
        let row = &rows[i];
        let mut rendered: Vec<(String, String)> = Vec::new();
        let m = row.len();
        let mut j: usize = 0;
        while j < m
            invariant
                m == row@.len(),
                j <= m,
                row_wf(row@),
                rendered@.len() == j,
                forall|k: int|
                    0 <= k < j ==> (#[trigger] rendered@[k]).0@ == row@[k].0@
                        && rendered@[k].1@ == rendered_text(row@[k].1),
            decreases m - j,
        {
            let name = row[j].0.clone();
            let value = row[j].1.to_string();
            rendered.push((name, value));
            j = j + 1;
        }
        out.push(rendered);
        i = i + 1;
    }
    Ok(out)
}

/// Relies on comfy_table::Table: lays the given label/value pairs out as one
/// bordered two-column text block, one pair per line, the labels coloured.
#[verifier::external_body]
fn table_block(rows: &Vec<(String, String)>) -> String {
    let mut t = comfy_table::Table::new();
    t.load_style(comfy_table::presets::UTF8_BORDERS_ONLY.with_rounded_corners());
    t.set_content_arrangement(comfy_table::ContentArrangement::Dynamic);
    for (name, value) in rows.iter() {
        t.add_row(vec![
            comfy_table::Cell::new(name).fg(comfy_table::Color::Green),
            comfy_table::Cell::new(value),
        ]);
    }
    t.to_string()
}

/// Render every row and lay each one out as its own two-column table block,
/// field name beside value, ready to be written to standard output.
pub fn render_tables(rows: &Vec<Vec<(String, ColumnValue)>>) -> (r: Result<Vec<String>, Error>)
    requires
        forall|i: int| 0 <= i < rows@.len() ==> row_wf((#[trigger] rows@[i])@),
    ensures
        match r {
            Ok(blocks) => rows@.len() > 0 && blocks@.len() == rows@.len(),
            Err(e) => rows@.len() == 0 && e == Error::EmptyResult,
        },
{
    let rendered = match render_rows(rows) {
        Ok(out) => out,
        Err(e) => {
            return Err(e);
        },
    };
    let mut blocks: Vec<String> = Vec::new();
    let n = rendered.len();
    let mut i: usize = 0;
    while i < n
        invariant
            n == rendered@.len(),
            i <= n,
            blocks@.len() == i,
        decreases n - i,
    {
        blocks.push(table_block(&rendered[i]));
        i = i + 1;
    }
    Ok(blocks)
}

} // verus!
