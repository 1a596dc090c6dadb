//! What the query of a listen request asks for, told by the pairs of text in it.

use vstd::prelude::*;

use crate::listen::{
    first_error, form_pairs, key_error, lemma_no_error_before, number_of, pair_texts,
    params_from_pairs, parse_listen_params, parse_number, read_digits, read_number, texts,
    values_of, ListenParams, ListenParamsError, NumberError,
};
use crate::listen_laws::{
    all_digits, decimal, law_digits_are_read, law_refused_only_for_a_number,
};
use crate::request_laws::{lemma_same_params, same_params};

verus! {

/// The digits of a number, without the plus sign that may stand in front of them.
pub open spec fn digits_of(text: Seq<char>) -> Seq<char> {
    if text.len() > 1 && text[0] == '+' {
        text.skip(1)
    } else {
        text
    }
}

/// The text is a decimal number that is not above the limit.
pub open spec fn is_number(text: Seq<char>, max: int) -> bool {
    &&& text.len() > 0
    &&& all_digits(digits_of(text))
    &&& decimal(digits_of(text)) <= max
}

/// The digits up to some place stand for a number above the limit.
pub open spec fn runs_over(digits: Seq<char>, max: int) -> bool {
    exists|k: int|
        0 <= k <= digits.len() && all_digits(#[trigger] digits.take(k)) && decimal(digits.take(k))
            > max
}

/// What is wrong with a text that is no number.
pub open spec fn is_fault(text: Seq<char>, max: int, error: NumberError) -> bool {
    &&& error is Empty <==> text.len() == 0
    &&& error is TooLarge <==> text.len() > 0 && runs_over(digits_of(text), max)
}

/// The pairs with this key, in their order.
pub open spec fn given(pairs: Seq<(String, String)>, key: Seq<char>) -> Seq<(String, String)> {
    pairs.filter(|pair: (String, String)| pair.0@ == key)
}

/// A list holds the values of these pairs, in their order.
pub open spec fn lists(list: Seq<String>, pairs: Seq<(String, String)>) -> bool {
    &&& list.len() == pairs.len()
    &&& forall|i: int| 0 <= i < list.len() ==> #[trigger] list[i]@ == pairs[i].1@
}

/// Pairs that give one number up to the limit, or none.
pub open spec fn fit(pairs: Seq<(String, String)>, max: int) -> bool {
    pairs.len() == 0 || pairs.len() == 1 && is_number(pairs[0].1@, max)
}

/// The number that pairs give, or the default where there are none.
pub open spec fn gives(pairs: Seq<(String, String)>, default: int, number: int) -> bool {
    number == if pairs.len() == 0 {
        default
    } else {
        decimal(digits_of(pairs[0].1@))
    }
}

/// What is wrong with pairs that do not fit.
pub open spec fn is_pair_fault(
    pairs: Seq<(String, String)>,
    max: int,
    error: ListenParamsError,
) -> bool {
    &&& error is Repeated <==> pairs.len() > 1
    &&& error matches ListenParamsError::Number(e) ==> is_fault(pairs[0].1@, max, e)
}

/// A pair whose key is given in a way that does not fit, and by which error it is refused.
pub open spec fn is_bad_pair(
    pairs: Seq<(String, String)>,
    i: int,
    error: ListenParamsError,
) -> bool {
    ||| {
        &&& pairs[i].0@ == "channels"@
        &&& !fit(given(pairs, "channels"@), 255)
        &&& is_pair_fault(given(pairs, "channels"@), 255, error)
    }
    ||| {
        &&& pairs[i].0@ == "sample_rate"@
        &&& !fit(given(pairs, "sample_rate"@), 4294967295)
        &&& is_pair_fault(given(pairs, "sample_rate"@), 4294967295, error)
    }
}

/// A pair whose key is given in a way that fits.
pub open spec fn is_good_pair(pairs: Seq<(String, String)>, i: int) -> bool {
    &&& pairs[i].0@ == "channels"@ ==> fit(given(pairs, "channels"@), 255)
    &&& pairs[i].0@ == "sample_rate"@ ==> fit(given(pairs, "sample_rate"@), 4294967295)
}

/// A text is read as the number it stands for, and refused exactly where it stands for none.
pub proof fn law_parse_number(text: &str, max: u32, number: Result<u32, NumberError>)
    requires
        call_ensures(parse_number, (text, max), number),
    ensures
        number is Ok <==> is_number(text@, max as int),
        number matches Ok(value) ==> value == decimal(digits_of(text@)),
        number matches Err(error) ==> is_fault(text@, max as int, error),
{
    lemma_read_number(text@, max as int);
}

proof fn lemma_read_number(text: Seq<char>, max: int)
    requires
        0 <= max,
    ensures
        read_number(text, max) is Ok <==> is_number(text, max),
        read_number(text, max) matches Ok(value) ==> value == decimal(digits_of(text)) && 0 <= value
            <= max,
        read_number(text, max) matches Err(error) ==> is_fault(text, max, error),
{
    law_digits_are_read(digits_of(text), max);
    lemma_too_large(digits_of(text), max);
}

proof fn lemma_too_large(digits: Seq<char>, max: int)
    requires
        0 <= max,
    ensures
        read_digits(digits, max) == Err::<int, _>(NumberError::TooLarge) <==> runs_over(digits, max),
        read_digits(digits, max) != Err::<int, _>(NumberError::Empty),
    decreases digits.len(),
{
    if digits.len() == 0 {
        if runs_over(digits, max) {
            let k = choose|k: int|
                0 <= k <= digits.len() && all_digits(#[trigger] digits.take(k)) && decimal(
                    digits.take(k),
                ) > max;
            assert(decimal(digits.take(k)) == 0);
        }
    } else {
        let earlier = digits.drop_last();
        let n = digits.len() as int;
        lemma_too_large(earlier, max);
        law_digits_are_read(earlier, max);
        law_digits_are_read(digits, max);
        assert(digits.take(n) =~= digits);
        assert(digits.take(n - 1) =~= earlier);
        assert(earlier.take(n - 1) =~= earlier);
        if runs_over(earlier, max) {
            let k = choose|k: int|
                0 <= k <= earlier.len() && all_digits(#[trigger] earlier.take(k)) && decimal(
                    earlier.take(k),
                ) > max;
            assert(digits.take(k) =~= earlier.take(k));
            assert(runs_over(digits, max));
        }
        if runs_over(digits, max) && !runs_over(earlier, max) {
            let k = choose|k: int|
                0 <= k <= digits.len() && all_digits(#[trigger] digits.take(k)) && decimal(
                    digits.take(k),
                ) > max;
            if k < n {
                assert(digits.take(k) =~= earlier.take(k));
                assert(false);
            }
            assert forall|i: int| 0 <= i < earlier.len() implies '0' <= #[trigger] earlier[i]
                && earlier[i] <= '9' by {
                assert(earlier[i] == digits[i]);
            }
            assert(all_digits(earlier.take(n - 1)));
            assert(digits[n - 1] == digits.last());
        }
        if read_digits(digits, max) == Err::<int, _>(NumberError::TooLarge) && !runs_over(
            earlier,
            max,
        ) {
            assert forall|i: int| 0 <= i < digits.len() implies '0' <= #[trigger] digits[i]
                && digits[i] <= '9' by {
                if i < earlier.len() {
                    assert(earlier[i] == digits[i]);
                }
            }
            assert(all_digits(digits.take(n)));
        }
    }
}

proof fn lemma_given(pairs: Seq<(String, String)>, key: Seq<char>)
    ensures
        values_of(pair_texts(pairs), key).len() == given(pairs, key).len(),
        forall|i: int|
            0 <= i < given(pairs, key).len() ==> #[trigger] values_of(pair_texts(pairs), key)[i]
                == given(pairs, key)[i].1@,
    decreases pairs.len(),
{
    reveal(Seq::filter);
    if pairs.len() > 0 {
        lemma_given(pairs.drop_last(), key);
        assert(pair_texts(pairs).drop_last() =~= pair_texts(pairs.drop_last()));
        assert(pair_texts(pairs).last() == (pairs.last().0@, pairs.last().1@));
    }
}

proof fn lemma_number_of(pairs: Seq<(String, String)>, key: Seq<char>, default: int, max: int)
    requires
        0 <= default <= max,
    ensures
        ({
            let number = number_of(values_of(pair_texts(pairs), key), default, max);
            &&& number is Ok <==> fit(given(pairs, key), max)
            &&& number matches Ok(value) ==> gives(given(pairs, key), default, value) && 0 <= value
                <= max
            &&& number matches Err(error) ==> is_pair_fault(given(pairs, key), max, error)
        }),
{
    lemma_given(pairs, key);
    let values = values_of(pair_texts(pairs), key);
    if values.len() == 1 {
        assert(values[0] == given(pairs, key)[0].1@);
        lemma_read_number(values[0], max);
    }
}

/// The languages are the values of the key `language`, the keywords those of the key `keywords`,
/// in their order and whatever else is given. The number of channels and the sample rate are the
/// numbers given for them, or one channel at sixteen thousand samples. Pairs are refused exactly
/// where one of the two does not fit, by the first such pair.
pub proof fn law_params_from_pairs(
    pairs: &Vec<(String, String)>,
    params: Result<ListenParams, ListenParamsError>,
)
    requires
        call_ensures(params_from_pairs, (pairs,), params),
    ensures
        params is Ok <==> fit(given(pairs@, "channels"@), 255) && fit(
            given(pairs@, "sample_rate"@),
            4294967295,
        ),
        params matches Ok(p) ==> {
            &&& lists(p.languages@, given(pairs@, "language"@))
            &&& lists(p.keywords@, given(pairs@, "keywords"@))
            &&& gives(given(pairs@, "channels"@), 1, p.channels as int)
            &&& gives(given(pairs@, "sample_rate"@), 16000, p.sample_rate as int)
        },
        params matches Err(error) ==> exists|i: int|
            0 <= i < pairs@.len() && #[trigger] is_bad_pair(pairs@, i, error) && forall|j: int|
                0 <= j < i ==> #[trigger] is_good_pair(pairs@, j),
{
    let all = pair_texts(pairs@);
    lemma_number_of(pairs@, "channels"@, 1, 255);
    lemma_number_of(pairs@, "sample_rate"@, 16000, 4294967295);
    law_refused_only_for_a_number(all);
    if let Ok(p) = params {
        lemma_lists(p.languages@, pairs@, "language"@);
        lemma_lists(p.keywords@, pairs@, "keywords"@);
    }
    if let Err(error) = params {
        lemma_first_bad_pair(pairs@, pairs@.len() as int, error);
    }
}

proof fn lemma_lists(list: Seq<String>, pairs: Seq<(String, String)>, key: Seq<char>)
    requires
        texts(list) == values_of(pair_texts(pairs), key),
    ensures
        lists(list, given(pairs, key)),
{
    lemma_given(pairs, key);
    assert(texts(list).len() == list.len());
    assert forall|i: int| 0 <= i < list.len() implies #[trigger] list[i]@ == given(
        pairs,
        key,
    )[i].1@ by {
        assert(texts(list)[i] == values_of(pair_texts(pairs), key)[i]);
    }
}

proof fn lemma_first_bad_pair(pairs: Seq<(String, String)>, n: int, error: ListenParamsError)
    requires
        0 <= n <= pairs.len(),
        first_error(pair_texts(pairs), n) == Some(error),
    ensures
        exists|i: int|
            0 <= i < n && #[trigger] is_bad_pair(pairs, i, error) && forall|j: int|
                0 <= j < i ==> #[trigger] is_good_pair(pairs, j),
    decreases n,
{
    let all = pair_texts(pairs);
    if first_error(all, n - 1) is Some {
        lemma_first_bad_pair(pairs, n - 1, error);
        let i = choose|i: int|
            0 <= i < n - 1 && #[trigger] is_bad_pair(pairs, i, error) && forall|j: int|
                0 <= j < i ==> #[trigger] is_good_pair(pairs, j);
        assert(is_bad_pair(pairs, i, error));
    } else {
        lemma_number_of(pairs, "channels"@, 1, 255);
        lemma_number_of(pairs, "sample_rate"@, 16000, 4294967295);
        lemma_no_error_before(all, n - 1);
        assert(all[n - 1].0 == pairs[n - 1].0@);
        assert(is_bad_pair(pairs, n - 1, error));
        assert forall|j: int| 0 <= j < n - 1 implies #[trigger] is_good_pair(pairs, j) by {
            assert(all[j].0 == pairs[j].0@);
            assert(key_error(all, all[j].0) is None);
            reveal_strlit("channels");
            reveal_strlit("sample_rate");
        }
    }
}

/// A query is read as the pairs that it is decoded to.
pub proof fn law_parse_listen_params(
    query: &str,
    params: Result<ListenParams, ListenParamsError>,
    pairs: &Vec<(String, String)>,
    expected: Result<ListenParams, ListenParamsError>,
)
    requires
        call_ensures(parse_listen_params, (query,), params),
        form_pairs(query@).len() == pairs@.len(),
        forall|i: int|
            0 <= i < pairs@.len() ==> #[trigger] form_pairs(query@)[i] == (
                pairs@[i].0@,
                pairs@[i].1@,
            ),
        call_ensures(params_from_pairs, (pairs,), expected),
    ensures
        params is Ok <==> expected is Ok,
        params is Ok ==> same_params(params->Ok_0, expected->Ok_0),
        params is Err ==> params->Err_0 == expected->Err_0,
{
    assert(pair_texts(pairs@) =~= form_pairs(query@));
    if params is Ok {
        lemma_same_params(params->Ok_0, expected->Ok_0);
    }
}

/// An empty query asks for one channel at sixteen thousand samples, and for nothing else.
pub proof fn law_empty_query(query: &str, params: Result<ListenParams, ListenParamsError>)
    requires
        query@.len() == 0,
        call_ensures(parse_listen_params, (query,), params),
    ensures
        params matches Ok(p) && p.languages@.len() == 0 && p.keywords@.len() == 0 && p.channels == 1
            && p.sample_rate == 16000,
{
    if let Ok(p) = params {
        assert(texts(p.languages@).len() == p.languages@.len());
        assert(texts(p.keywords@).len() == p.keywords@.len());
    }
}

} // verus!
