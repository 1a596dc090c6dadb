//! What holds of the query of a listen request.

use vstd::prelude::*;

use crate::listen::{
    channels_of, first_error, lemma_error_has_pair, lemma_no_error_before, params_of, read_digits,
    read_number, sample_rate_of, values_of, ListenParamsError, ListenParamsView,
};

verus! {

/// The values of a key keep their order, and what comes later in a query is added behind them.
pub proof fn law_values_keep_their_order(
    first: Seq<(Seq<char>, Seq<char>)>,
    second: Seq<(Seq<char>, Seq<char>)>,
    key: Seq<char>,
)
    ensures
        values_of(first + second, key) == values_of(first, key) + values_of(second, key),
    decreases second.len(),
{
    if second.len() == 0 {
        assert(first + second =~= first);
        assert(values_of(first, key) + values_of(second, key) =~= values_of(first, key));
    } else {
        law_values_keep_their_order(first, second.drop_last(), key);
        assert((first + second).drop_last() =~= first + second.drop_last());
        assert((first + second).last() == second.last());
        assert(values_of(first + second, key) =~= values_of(first, key) + values_of(second, key));
    }
}

/// A query that names neither channels nor a sample rate is for one channel at sixteen thousand
/// samples per second, whatever else it says.
pub proof fn law_audio_defaults(pairs: Seq<(Seq<char>, Seq<char>)>)
    requires
        forall|i: int|
            0 <= i < pairs.len() ==> (#[trigger] pairs[i]).0 != "channels"@ && pairs[i].0
                != "sample_rate"@,
    ensures
        params_of(pairs) == Ok::<_, ListenParamsError>(
            ListenParamsView {
                languages: values_of(pairs, "language"@),
                keywords: values_of(pairs, "keywords"@),
                channels: 1,
                sample_rate: 16000,
            },
        ),
{
    lemma_absent_key(pairs, "channels"@);
    lemma_absent_key(pairs, "sample_rate"@);
    lemma_no_error(pairs, pairs.len() as int);
}

/// The values of a key that takes one number do not do: there are several, or the only one is no
/// number up to `max`.
pub open spec fn unfit(values: Seq<Seq<char>>, max: int) -> bool {
    ||| values.len() > 1
    ||| values.len() == 1 && read_number(values[0], max) is Err
}

/// A query is refused exactly where what it gives as the number of channels or as the sample rate
/// does not do, and the error is that of one of the two.
pub proof fn law_refused_only_for_a_number(pairs: Seq<(Seq<char>, Seq<char>)>)
    ensures
        params_of(pairs) is Ok <==> channels_of(pairs) is Ok && sample_rate_of(pairs) is Ok,
        params_of(pairs) is Err <==> unfit(values_of(pairs, "channels"@), u8::MAX as int) || unfit(
            values_of(pairs, "sample_rate"@),
            u32::MAX as int,
        ),
        params_of(pairs) matches Err(error) ==> channels_of(pairs) == Err::<int, _>(error)
            || sample_rate_of(pairs) == Err::<int, _>(error),
{
    if channels_of(pairs) is Ok && sample_rate_of(pairs) is Ok {
        lemma_no_error(pairs, pairs.len() as int);
    } else {
        lemma_error_has_pair(pairs, "channels"@);
        lemma_error_has_pair(pairs, "sample_rate"@);
        if first_error(pairs, pairs.len() as int) is None {
            lemma_no_error_before(pairs, pairs.len() as int);
        }
        lemma_error_is_of_a_number(pairs, pairs.len() as int);
    }
}

proof fn lemma_error_is_of_a_number(pairs: Seq<(Seq<char>, Seq<char>)>, n: int)
    requires
        0 <= n <= pairs.len(),
    ensures
        first_error(pairs, n) matches Some(error) ==> channels_of(pairs) == Err::<int, _>(error)
            || sample_rate_of(pairs) == Err::<int, _>(error),
    decreases n,
{
    if n > 0 {
        lemma_error_is_of_a_number(pairs, n - 1);
    }
}

proof fn lemma_absent_key(pairs: Seq<(Seq<char>, Seq<char>)>, key: Seq<char>)
    requires
        forall|i: int| 0 <= i < pairs.len() ==> (#[trigger] pairs[i]).0 != key,
    ensures
        values_of(pairs, key).len() == 0,
    decreases pairs.len(),
{
    if pairs.len() > 0 {
        assert forall|i: int| 0 <= i < pairs.drop_last().len() implies (
        #[trigger] pairs.drop_last()[i]).0 != key by {
            assert(pairs.drop_last()[i] == pairs[i]);
        }
        lemma_absent_key(pairs.drop_last(), key);
        assert(pairs[pairs.len() - 1].0 != key);
    }
}

proof fn lemma_no_error(pairs: Seq<(Seq<char>, Seq<char>)>, n: int)
    requires
        0 <= n <= pairs.len(),
        channels_of(pairs) is Ok,
        sample_rate_of(pairs) is Ok,
    ensures
        first_error(pairs, n) is None,
    decreases n,
{
    if n > 0 {
        lemma_no_error(pairs, n - 1);
    }
}

/// The number that decimal digits stand for.
pub open spec fn decimal(digits: Seq<char>) -> int
    decreases digits.len(),
{
    if digits.len() == 0 {
        0
    } else {
        decimal(digits.drop_last()) * 10 + (digits.last() as int - '0' as int)
    }
}

/// The text consists of decimal digits.
pub open spec fn all_digits(text: Seq<char>) -> bool {
    forall|i: int| 0 <= i < text.len() ==> '0' <= #[trigger] text[i] && text[i] <= '9'
}

/// Digits are read as the number they stand for, and they are read exactly where there are no
/// other characters and the number is not above the limit.
pub proof fn law_digits_are_read(digits: Seq<char>, max: int)
    requires
        0 <= max,
    ensures
        read_digits(digits, max) is Ok <==> all_digits(digits) && decimal(digits) <= max,
        read_digits(digits, max) matches Ok(value) ==> value == decimal(digits),
        all_digits(digits) ==> 0 <= decimal(digits),
    decreases digits.len(),
{
    if digits.len() > 0 {
        let earlier = digits.drop_last();
        law_digits_are_read(earlier, max);
        if all_digits(digits) {
            assert forall|i: int| 0 <= i < earlier.len() implies '0' <= #[trigger] earlier[i]
                && earlier[i] <= '9' by {
                assert(earlier[i] == digits[i]);
            }
            assert(digits[digits.len() - 1] == digits.last());
        }
        if read_digits(digits, max) is Ok {
            assert forall|i: int| 0 <= i < digits.len() implies '0' <= #[trigger] digits[i]
                && digits[i] <= '9' by {
                if i < earlier.len() {
                    assert(earlier[i] == digits[i]);
                }
            }
        }
    }
}

} // verus!
