//! Barcodes: how one is recognised in a request, and how new ones are handed
//! out, one sequence for every calendar day.

use vstd::prelude::*;
use crate::text::{
    is_digit, pow10, zero_padded, zero_padded_has_width, zero_padded_is_digits,
    zero_padded_is_injective, zero_padded_text,
};

verus! {

/// What `char::is_numeric` answers for a character.
pub uninterp spec fn char_is_numeric(c: char) -> bool;

/// `char::is_numeric` tells whether a character belongs to one of Unicode's
/// numeric categories. The contract only names the answer.
pub assume_specification[ char::is_numeric ](c: char) -> (yes: bool)
    ensures
        yes == char_is_numeric(c),
;

/// Whether a text can be a barcode: every character of it is numeric.
pub open spec fn all_numeric(text: Seq<char>) -> bool {
    forall|i: int| 0 <= i < text.len() ==> char_is_numeric(#[trigger] text[i])
}

/// A path segment that has the form of a barcode.
#[derive(Clone, Copy, Debug, PartialEq, Eq)]
pub struct ProductBarcode<'a>(&'a str);

impl<'a> ProductBarcode<'a> {
    /// Accepts a path segment as a barcode if all its characters are
    /// numeric, and hands it back otherwise.
    pub fn from_param(param: &'a str) -> (out: Result<ProductBarcode<'a>, &'a str>)
        ensures
            match out {
                Ok(code) => all_numeric(param@) && code.spec_inner() == param@,
                Err(given) => !all_numeric(param@) && given@ == param@,
            },
    {
        let n: usize = param.unicode_len();
        let mut i: usize = 0;
        while i < n
            invariant
                n == param@.len(),
                i <= n,
                forall|k: int| 0 <= k < i ==> char_is_numeric(#[trigger] param@[k]),
            decreases n - i,
        {
            if !param.get_char(i).is_numeric() {
                return Err(param);
            }
            i += 1;
        }
        Ok(ProductBarcode(param))
    }

    /// The text of the barcode.
    pub closed spec fn spec_inner(self) -> Seq<char> {
        self.0@
    }

    /// The text of the barcode.
    pub fn inner(self) -> (text: &'a str)
        ensures
            text@ == self.spec_inner(),
    {
        self.0
    }
}

/// The six digits, two each for year, month and day, that `chrono` writes for
/// the day that lies `epoch_day` days after the first of January 1970, or
/// nothing where it cannot represent that day.
pub uninterp spec fn utc_date_prefix(epoch_day: int) -> Option<Seq<char>>;

/// How many characters the date prefix of a barcode has.
pub const PREFIX_WIDTH: usize = 6;

/// Whether a text has the form of a date prefix: six digits.
pub open spec fn is_date_prefix(text: Seq<char>) -> bool {
    text.len() == PREFIX_WIDTH && forall|i: int| 0 <= i < text.len() ==> is_digit(#[trigger] text[i])
}

/// Makes the date with `chrono::NaiveDate::from_epoch_days` and writes it with
/// `NaiveDate::format` under the pattern `%y%m%d`. The text depends on the day
/// alone; the contract names it. Each of the three parts is written as two
/// digits, filled with a zero, so that every text has six digits.
#[verifier::external_body]
pub(crate) fn format_epoch_day(epoch_day: i32) -> (prefix: Option<String>)
    ensures
        match prefix {
            Some(text) => utc_date_prefix(epoch_day as int) == Some(text@),
            None => utc_date_prefix(epoch_day as int) is None,
        },
        prefix matches Some(text) ==> is_date_prefix(text@),
{
    let day = chrono::NaiveDate::from_epoch_days(epoch_day)?;
    Some(day.format("%y%m%d").to_string())
}

/// The calendar day, in universal time, in which a second lies: the number of
/// whole days between the epoch and that second.
pub open spec fn day_of(seconds: int) -> int {
    seconds / 86400
}

/// The calendar day in which a second lies.
pub fn epoch_day(seconds: i64) -> (day: i64)
    ensures
        day == day_of(seconds as int),
{
    if seconds >= 0 {
        seconds / 86400
    } else {
        -((-(seconds + 1)) / 86400) - 1
    }
}

/// The date prefix of the barcodes of a day, where the day can be written.
pub open spec fn prefix_of_day(day: int) -> Option<Seq<char>> {
    if i32::MIN <= day <= i32::MAX {
        utc_date_prefix(day)
    } else {
        None
    }
}

/// The date prefix of the barcodes of a day: six digits.
pub fn day_prefix(day: i64) -> (prefix: Option<String>)
    ensures
        match prefix {
            Some(text) => prefix_of_day(day as int) == Some(text@),
            None => prefix_of_day(day as int) is None,
        },
        prefix matches Some(text) ==> is_date_prefix(text@),
{
    if day < -2147483648 || day > 2147483647 {
        None
    } else {
        format_epoch_day(day as i32)
    }
}

/// How many digits the running number of a barcode has at least.
pub const INDEX_WIDTH: usize = 8;

/// The first running number that needs more digits than that.
pub const INDEX_LIMIT: u32 = 100000000;

/// Whether a text has the form of a barcode that carries the running number
/// `index`: digits only, six for the date and at least eight for the number,
/// and exactly eight while the number is below a hundred million.
pub open spec fn is_barcode_form(text: Seq<char>, index: u32) -> bool {
    &&& text.len() >= PREFIX_WIDTH + INDEX_WIDTH
    &&& index < INDEX_LIMIT ==> text.len() == PREFIX_WIDTH + INDEX_WIDTH
    &&& forall|i: int| 0 <= i < text.len() ==> is_digit(#[trigger] text[i])
}

/// The counter behind the barcodes: the second at which the current day's
/// sequence began, and the next free number in it.
#[derive(Clone, Copy, Debug, PartialEq, Eq, Structural)]
pub struct ProductBarcodeGenerator {
    pub last_datetime: i64,
    pub next_index: u32,
}

/// The counter as it stands when a barcode is asked for at `now`, before the
/// barcode is taken: on the day the sequence began it is unchanged; on any
/// other day a new sequence begins at zero.
pub open spec fn rolled(state: ProductBarcodeGenerator, now: i64) -> ProductBarcodeGenerator {
    if day_of(now as int) != day_of(state.last_datetime as int) {
        ProductBarcodeGenerator { last_datetime: now, next_index: 0 }
    } else {
        state
    }
}

/// The running number of the barcode handed out at `now`.
pub open spec fn index_at(state: ProductBarcodeGenerator, now: i64) -> u32 {
    rolled(state, now).next_index
}

/// Whether a barcode can be handed out at `now`: the day can be written and
/// the sequence of the day is not used up.
pub open spec fn can_get(state: ProductBarcodeGenerator, now: i64) -> bool {
    prefix_of_day(day_of(now as int)) is Some && index_at(state, now) < u32::MAX
}

/// The barcode handed out at `now`: the date prefix of the day, then the
/// running number, filled with zeros to eight digits.
pub open spec fn code_at(state: ProductBarcodeGenerator, now: i64) -> Seq<char> {
    prefix_of_day(day_of(now as int))->0 + zero_padded(
        index_at(state, now) as nat,
        INDEX_WIDTH as nat,
    )
}

/// The counter after a barcode was handed out at `now`.
pub open spec fn after_get(state: ProductBarcodeGenerator, now: i64) -> ProductBarcodeGenerator {
    if can_get(state, now) {
        ProductBarcodeGenerator {
            last_datetime: rolled(state, now).last_datetime,
            next_index: (index_at(state, now) + 1) as u32,
        }
    } else {
        state
    }
}

impl ProductBarcodeGenerator {
    /// A counter whose first sequence begins at `now`.
    pub fn new(now: i64) -> (state: ProductBarcodeGenerator)
        ensures
            state == (ProductBarcodeGenerator { last_datetime: now, next_index: 0 }),
    {
        ProductBarcodeGenerator { last_datetime: now, next_index: 0 }
    }

    /// The counter that a checkpoint stands for. A checkpoint with a
    /// negative number is corrupt and stands for none.
    pub fn from_checkpoint(last_datetime: i64, next_index: i32) -> (state: Option<
        ProductBarcodeGenerator,
    >)
        ensures
            state == if next_index >= 0 {
                Some(ProductBarcodeGenerator { last_datetime, next_index: next_index as u32 })
            } else {
                None
            },
    {
        if next_index >= 0 {
            Some(ProductBarcodeGenerator { last_datetime, next_index: next_index as u32 })
        } else {
            None
        }
    }

    /// The number that the checkpoint holds for the counter: the next free
    /// number, or the largest that the checkpoint can hold where the counter
    /// is beyond it.
    pub fn checkpoint_index(&self) -> (index: i32)
        ensures
            index == if self.next_index <= i32::MAX {
                self.next_index as i32
            } else {
                i32::MAX
            },
    {
        if self.next_index <= 2147483647 {
            self.next_index as i32
        } else {
            i32::MAX
        }
    }

    /// Hands out the next barcode of the day of `now`. Nothing is handed
    /// out, and the counter stays as it is, where the day cannot be written
    /// or its sequence is used up.
    pub fn get(&mut self, now: i64) -> (code: Option<String>)
        ensures
            *final(self) == after_get(*old(self), now),
            match code {
                Some(text) => can_get(*old(self), now) && text@ == code_at(*old(self), now),
                None => !can_get(*old(self), now),
            },
            code matches Some(text) ==> {
                &&& is_barcode_form(text@, index_at(*old(self), now))
                &&& text@.subrange(0, PREFIX_WIDTH as int) == prefix_of_day(
                    day_of(now as int),
                )->0
            },
    {
        let today = epoch_day(now);
        let mut text = match day_prefix(today) {
            Some(prefix) => prefix,
            None => { return None; },
        };
        let index: u32 = if today != epoch_day(self.last_datetime) {
            0
        } else {
            self.next_index
        };
        if index == u32::MAX {
            return None;
        }
        if today != epoch_day(self.last_datetime) {
            self.last_datetime = now;
        }
        self.next_index = index + 1;
        let ghost prefix = text@;
        let ghost suffix = zero_padded(index as nat, INDEX_WIDTH as nat);
        text.append(zero_padded_text(index, INDEX_WIDTH).as_str());
        proof {
            zero_padded_is_digits(index as nat, INDEX_WIDTH as nat);
            if index < INDEX_LIMIT {
                assert(pow10(8) == 100000000) by {
                    reveal_with_fuel(pow10, 9);
                }
                zero_padded_has_width(index as nat, INDEX_WIDTH as nat);
            }
            assert(text@.subrange(0, PREFIX_WIDTH as int) =~= prefix);
            assert forall|i: int| 0 <= i < text@.len() implies is_digit(#[trigger] text@[i]) by {
                if i < prefix.len() {
                    assert(text@[i] == prefix[i]);
                } else {
                    assert(text@[i] == suffix[i - prefix.len()]);
                }
            }
        }
        Some(text)
    }
}

/// The shared counter of the server. The program that holds it lets one
/// caller at a time take a barcode.
#[derive(Clone, Copy, Debug, PartialEq, Eq, Structural)]
pub struct ProductBarcodeGeneratorState {
    pub state: ProductBarcodeGenerator,
}

impl ProductBarcodeGeneratorState {
    /// A counter whose first sequence begins at `now`.
    pub fn new(now: i64) -> (fresh: ProductBarcodeGeneratorState)
        ensures
            fresh.state == (ProductBarcodeGenerator { last_datetime: now, next_index: 0 }),
    {
        ProductBarcodeGeneratorState { state: ProductBarcodeGenerator::new(now) }
    }

    /// Hands out the next barcode of the day of `now`.
    pub fn get(&mut self, now: i64) -> (code: Option<String>)
        ensures
            final(self).state == after_get(old(self).state, now),
            match code {
                Some(text) => can_get(old(self).state, now) && text@ == code_at(
                    old(self).state,
                    now,
                ),
                None => !can_get(old(self).state, now),
            },
            code matches Some(text) ==> {
                &&& is_barcode_form(text@, index_at(old(self).state, now))
                &&& text@.subrange(0, PREFIX_WIDTH as int) == prefix_of_day(
                    day_of(now as int),
                )->0
            },
    {
        self.state.get(now)
    }

    /// The counter as it is to be written to the checkpoint.
    pub fn save(&self) -> (checkpoint: ProductBarcodeGenerator)
        ensures
            checkpoint == self.state,
    {
        self.state
    }

    /// Takes the counter up from a checkpoint. Where there is none, because
    /// the file is missing or cannot be read, a new counter begins at `now`.
    pub fn load(checkpoint: Option<ProductBarcodeGenerator>, now: i64) -> (loaded:
        ProductBarcodeGeneratorState)
        ensures
            loaded.state == match checkpoint {
                Some(state) => state,
                None => ProductBarcodeGenerator { last_datetime: now, next_index: 0 },
            },
    {
        match checkpoint {
            Some(state) => ProductBarcodeGeneratorState { state },
            None => ProductBarcodeGeneratorState::new(now),
        }
    }
}

/// Two barcodes taken on the same calendar day, one right after the other,
/// share the date prefix, and the running number of the second is the number
/// of the first plus one.
pub proof fn same_day_increases(state: ProductBarcodeGenerator, first: i64, second: i64)
    requires
        day_of(first as int) == day_of(second as int),
        can_get(state, first),
        can_get(after_get(state, first), second),
    ensures
        prefix_of_day(day_of(second as int)) == prefix_of_day(day_of(first as int)),
        index_at(after_get(state, first), second) == index_at(state, first) + 1,
        index_at(after_get(state, first), second) > index_at(state, first),
{
}

/// The counter after barcodes were asked for at each of `times`, in turn.
pub open spec fn after_gets(
    state: ProductBarcodeGenerator,
    times: Seq<i64>,
) -> ProductBarcodeGenerator
    decreases times.len(),
{
    if times.len() == 0 {
        state
    } else {
        after_gets(after_get(state, times[0]), times.drop_first())
    }
}

/// Whether all of `times` lie in the calendar day `day`.
pub open spec fn all_on_day(times: Seq<i64>, day: int) -> bool {
    forall|i: int| 0 <= i < times.len() ==> day_of(#[trigger] times[i] as int) == day
}

proof fn lemma_gets_on_one_day(state: ProductBarcodeGenerator, times: Seq<i64>)
    requires
        all_on_day(times, day_of(state.last_datetime as int)),
    ensures
        day_of(after_gets(state, times).last_datetime as int) == day_of(
            state.last_datetime as int,
        ),
        after_gets(state, times).next_index >= state.next_index,
    decreases times.len(),
{
    if times.len() > 0 {
        let next = after_get(state, times[0]);
        assert(day_of(times[0] as int) == day_of(state.last_datetime as int));
        assert forall|i: int| 0 <= i < times.drop_first().len() implies day_of(
            #[trigger] times.drop_first()[i] as int,
        ) == day_of(next.last_datetime as int) by {
            assert(times.drop_first()[i] == times[i + 1]);
        }
        lemma_gets_on_one_day(next, times.drop_first());
    }
}

/// Within one calendar day the running numbers keep increasing: a barcode
/// taken later on the day of an earlier one has a greater number, however
/// many barcodes were asked for in between.
pub proof fn same_day_numbers_grow(
    state: ProductBarcodeGenerator,
    first: i64,
    between: Seq<i64>,
    second: i64,
)
    requires
        day_of(first as int) == day_of(second as int),
        all_on_day(between, day_of(first as int)),
        can_get(state, first),
    ensures
        index_at(after_gets(after_get(state, first), between), second) > index_at(state, first),
{
    lemma_gets_on_one_day(after_get(state, first), between);
}

/// No barcode is handed out twice on one calendar day: a barcode taken later
/// on the day of an earlier one differs from it, however many barcodes were
/// asked for in between.
pub proof fn same_day_codes_differ(
    state: ProductBarcodeGenerator,
    first: i64,
    between: Seq<i64>,
    second: i64,
)
    requires
        day_of(first as int) == day_of(second as int),
        all_on_day(between, day_of(first as int)),
        can_get(state, first),
    ensures
        code_at(after_gets(after_get(state, first), between), second) != code_at(state, first),
{
    same_day_numbers_grow(state, first, between, second);
    let later = after_gets(after_get(state, first), between);
    let prefix = prefix_of_day(day_of(first as int))->0;
    let a = zero_padded(index_at(state, first) as nat, INDEX_WIDTH as nat);
    let b = zero_padded(index_at(later, second) as nat, INDEX_WIDTH as nat);
    if code_at(later, second) == code_at(state, first) {
        assert(a =~= (prefix + a).subrange(prefix.len() as int, (prefix + a).len() as int));
        assert(b =~= (prefix + b).subrange(prefix.len() as int, (prefix + b).len() as int));
        zero_padded_is_injective(
            index_at(state, first) as nat,
            index_at(later, second) as nat,
            INDEX_WIDTH as nat,
        );
    }
}

/// The first barcode taken on a day other than that of the running sequence
/// has the number zero, whatever number the sequence had reached.
pub proof fn new_day_resets(state: ProductBarcodeGenerator, now: i64)
    requires
        day_of(now as int) != day_of(state.last_datetime as int),
    ensures
        index_at(state, now) == 0,
        can_get(state, now) ==> code_at(state, now) == prefix_of_day(day_of(now as int))->0
            + zero_padded(0, INDEX_WIDTH as nat),
        can_get(state, now) ==> after_get(state, now) == (ProductBarcodeGenerator {
            last_datetime: now,
            next_index: 1,
        }),
{
}

} // verus!
