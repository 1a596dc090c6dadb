//! The query of a listen request.

use vstd::prelude::*;

use crate::listen_laws::law_refused_only_for_a_number;
use crate::text::chars_of;

verus! {

/// Channels of the audio where the query names none.
pub const DEFAULT_CHANNELS: u8 = 1;

/// Samples per second where the query names none.
pub const DEFAULT_SAMPLE_RATE: u32 = 16000;

/// How the audio is sent and what is spoken in it.
///
/// `languages` holds the values of the key `language` as they were sent.
#[derive(Debug, Clone, PartialEq, Eq)]
pub struct ListenParams {
    pub languages: Vec<String>,
    pub keywords: Vec<String>,
    pub channels: u8,
    pub sample_rate: u32,
}

/// [`ListenParams`] by the characters that they carry.
#[verifier::ext_equal]
pub struct ListenParamsView {
    pub languages: Seq<Seq<char>>,
    pub keywords: Seq<Seq<char>>,
    pub channels: u8,
    pub sample_rate: u32,
}

impl View for ListenParams {
    type V = ListenParamsView;

    open spec fn view(&self) -> ListenParamsView {
        ListenParamsView {
            languages: texts(self.languages@),
            keywords: texts(self.keywords@),
            channels: self.channels,
            sample_rate: self.sample_rate,
        }
    }
}

/// Why a text is no number of its type.
#[derive(Debug, Clone, Copy, PartialEq, Eq, Structural)]
pub enum NumberError {
    Empty,
    InvalidDigit,
    TooLarge,
}

/// Why a query is refused.
#[derive(Debug, Clone, Copy, PartialEq, Eq, Structural)]
pub enum ListenParamsError {
    /// A key that takes one value was given several.
    Repeated,
    /// The value of a key is no number of its type.
    Number(NumberError),
}

impl ListenParamsError {
    /// The characters of the message shown for the error.
    pub open spec fn message_text(self) -> Seq<char> {
        match self {
            ListenParamsError::Repeated => "unsupported value"@,
            ListenParamsError::Number(NumberError::Empty) => {
                "cannot parse integer from empty string"@
            },
            ListenParamsError::Number(NumberError::InvalidDigit) => {
                "invalid digit found in string"@
            },
            ListenParamsError::Number(NumberError::TooLarge) => {
                "number too large to fit in target type"@
            },
        }
    }

    /// The message shown for the error.
    pub fn message(&self) -> (message: String)
        ensures
            message@ == self.message_text(),
    {
        match self {
            ListenParamsError::Repeated => "unsupported value".to_string(),
            ListenParamsError::Number(NumberError::Empty) => {
                "cannot parse integer from empty string".to_string()
            },
            ListenParamsError::Number(NumberError::InvalidDigit) => {
                "invalid digit found in string".to_string()
            },
            ListenParamsError::Number(NumberError::TooLarge) => {
                "number too large to fit in target type".to_string()
            },
        }
    }
}

/// The characters of each text.
pub open spec fn texts(list: Seq<String>) -> Seq<Seq<char>> {
    list.map_values(|text: String| text@)
}

/// The characters of each key and value.
pub open spec fn pair_texts(pairs: Seq<(String, String)>) -> Seq<(Seq<char>, Seq<char>)> {
    pairs.map_values(|pair: (String, String)| (pair.0@, pair.1@))
}

/// The values given for `key`, in their order.
pub open spec fn values_of(pairs: Seq<(Seq<char>, Seq<char>)>, key: Seq<char>) -> Seq<Seq<char>>
    decreases pairs.len(),
{
    if pairs.len() == 0 {
        Seq::empty()
    } else {
        let earlier = values_of(pairs.drop_last(), key);
        if pairs.last().0 == key {
            earlier.push(pairs.last().1)
        } else {
            earlier
        }
    }
}

/// Reads decimal digits from left to right; the first one that does not do decides the error.
pub open spec fn read_digits(digits: Seq<char>, max: int) -> Result<int, NumberError>
    decreases digits.len(),
{
    if digits.len() == 0 {
        Ok(0)
    } else {
        match read_digits(digits.drop_last(), max) {
            Err(error) => Err(error),
            Ok(value) => {
                let next = value * 10 + (digits.last() as int - '0' as int);
                if !('0' <= digits.last() && digits.last() <= '9') {
                    Err(NumberError::InvalidDigit)
                } else if next > max {
                    Err(NumberError::TooLarge)
                } else {
                    Ok(next)
                }
            },
        }
    }
}

/// The number that a text stands for: digits, which a plus sign may precede.
pub open spec fn read_number(text: Seq<char>, max: int) -> Result<int, NumberError> {
    if text.len() == 0 {
        Err(NumberError::Empty)
    } else if text.len() > 1 && text[0] == '+' {
        read_digits(text.skip(1), max)
    } else {
        read_digits(text, max)
    }
}

/// The number that the values of one key stand for.
pub open spec fn number_of(values: Seq<Seq<char>>, default: int, max: int) -> Result<
    int,
    ListenParamsError,
> {
    if values.len() == 0 {
        Ok(default)
    } else if values.len() > 1 {
        Err(ListenParamsError::Repeated)
    } else {
        match read_number(values[0], max) {
            Ok(value) => Ok(value),
            Err(error) => Err(ListenParamsError::Number(error)),
        }
    }
}

/// The number of channels that the pairs ask for.
pub open spec fn channels_of(pairs: Seq<(Seq<char>, Seq<char>)>) -> Result<
    int,
    ListenParamsError,
> {
    number_of(values_of(pairs, "channels"@), DEFAULT_CHANNELS as int, u8::MAX as int)
}

/// The sample rate that the pairs ask for.
pub open spec fn sample_rate_of(pairs: Seq<(Seq<char>, Seq<char>)>) -> Result<
    int,
    ListenParamsError,
> {
    number_of(values_of(pairs, "sample_rate"@), DEFAULT_SAMPLE_RATE as int, u32::MAX as int)
}

/// What is wrong with the values given for `key`.
pub open spec fn key_error(pairs: Seq<(Seq<char>, Seq<char>)>, key: Seq<char>) -> Option<
    ListenParamsError,
> {
    if key == "channels"@ && channels_of(pairs) is Err {
        Some(channels_of(pairs)->Err_0)
    } else if key == "sample_rate"@ && sample_rate_of(pairs) is Err {
        Some(sample_rate_of(pairs)->Err_0)
    } else {
        None
    }
}

/// The error of the earliest among the first `n` pairs whose key has one.
pub open spec fn first_error(pairs: Seq<(Seq<char>, Seq<char>)>, n: int) -> Option<
    ListenParamsError,
>
    decreases n,
{
    if n <= 0 {
        None
    } else {
        match first_error(pairs, n - 1) {
            Some(error) => Some(error),
            None => key_error(pairs, pairs[n - 1].0),
        }
    }
}

/// The parameters that decoded pairs stand for. Other keys are passed over.
pub open spec fn params_of(pairs: Seq<(Seq<char>, Seq<char>)>) -> Result<
    ListenParamsView,
    ListenParamsError,
> {
    match first_error(pairs, pairs.len() as int) {
        Some(error) => Err(error),
        None => Ok(
            ListenParamsView {
                languages: values_of(pairs, "language"@),
                keywords: values_of(pairs, "keywords"@),
                channels: channels_of(pairs)->Ok_0 as u8,
                sample_rate: sample_rate_of(pairs)->Ok_0 as u32,
            },
        ),
    }
}

/// The keys and values that `serde_html_form::from_str` decodes a query to.
pub uninterp spec fn form_pairs(query: Seq<char>) -> Seq<(Seq<char>, Seq<char>)>;

/// Decodes a query with `serde_html_form::from_str`.
///
/// As a list of pairs of text every query can be decoded. The keys and values depend on the query
/// alone, and an empty query has none.
#[verifier::external_body]
fn decode_form(query: &str) -> (decoded: Result<Vec<(String, String)>, String>)
    ensures
        decoded is Ok,
        pair_texts(decoded->Ok_0@) == form_pairs(query@),
        query@.len() == 0 ==> decoded->Ok_0@.len() == 0,
{
    serde_html_form::from_str::<Vec<(String, String)>>(query).map_err(|error| error.to_string())
}

/// Collects the values given for `key`.
fn collect_values(pairs: &Vec<(String, String)>, key: &str) -> (values: Vec<String>)
    ensures
        texts(values@) == values_of(pair_texts(pairs@), key@),
{
    let wanted: String = key.to_string();
    let mut values: Vec<String> = Vec::new();
    let ghost all = pair_texts(pairs@);
    assert(texts(values@) =~= values_of(all.take(0), key@));
    for i in 0..pairs.len()
        invariant
            wanted@ == key@,
            all == pair_texts(pairs@),
            texts(values@) == values_of(all.take(i as int), key@),
    {
        assert(all.take(i + 1).drop_last() =~= all.take(i as int));
        assert(all.take(i + 1).last() == (pairs@[i as int].0@, pairs@[i as int].1@));
        if pairs[i].0 == wanted {
            let value: String = pairs[i].1.clone();
            let ghost before = values@;
            values.push(value);
            assert(texts(values@) =~= texts(before).push(value@));
        }
    }
    assert(all.take(pairs@.len() as int) =~= all);
    values
}

/// Reads an unsigned decimal number that is at most `max`.
pub fn parse_number(text: &str, max: u32) -> (number: Result<u32, NumberError>)
    ensures
        match read_number(text@, max as int) {
            Ok(value) => number matches Ok(n) && n == value,
            Err(error) => number == Err::<u32, NumberError>(error),
        },
{
    let chars = chars_of(text);
    if chars.len() == 0 {
        return Err(NumberError::Empty);
    }
    let start: usize = if chars.len() > 1 && chars[0] == '+' {
        1
    } else {
        0
    };
    let ghost digits = text@.skip(start as int);
    assert(text@.skip(0) =~= text@);
    let mut value: u32 = 0;
    let mut i: usize = start;
    while i < chars.len()
        invariant
            chars@ == text@,
            start <= i <= chars@.len(),
            digits == text@.skip(start as int),
            value <= max,
            read_digits(digits.take(i - start), max as int) == Ok::<int, NumberError>(value as int),
            read_number(text@, max as int) == read_digits(digits, max as int),
        decreases chars@.len() - i,
    {
        let c = chars[i];
        proof {
            assert(digits.take(i + 1 - start).drop_last() =~= digits.take(i - start));
            assert(digits.take(i + 1 - start).last() == c);
        }
        let ok = '0' <= c && c <= '9';
        if !ok {
            proof {
                lemma_error_stays(digits, max as int, i + 1 - start);
            }
            return Err(NumberError::InvalidDigit);
        }
        let digit: u64 = (c as u32 - 48) as u64;
        let next: u64 = value as u64 * 10 + digit;
        if next > max as u64 {
            proof {
                lemma_error_stays(digits, max as int, i + 1 - start);
            }
            return Err(NumberError::TooLarge);
        }
        value = next as u32;
        i += 1;
    }
    assert(digits.take(digits.len() as int) =~= digits);
    Ok(value)
}

/// An error found in the first `n` digits is the error of them all.
proof fn lemma_error_stays(digits: Seq<char>, max: int, n: int)
    requires
        0 <= n <= digits.len(),
        read_digits(digits.take(n), max) is Err,
    ensures
        read_digits(digits, max) == read_digits(digits.take(n), max),
    decreases digits.len(),
{
    if n == digits.len() {
        assert(digits.take(n) =~= digits);
    } else {
        assert(digits.drop_last().take(n) =~= digits.take(n));
        lemma_error_stays(digits.drop_last(), max, n);
    }
}

/// Reads the number that the values of one key stand for.
fn parse_values(values: &Vec<String>, default: u32, max: u32) -> (number: Result<
    u32,
    ListenParamsError,
>)
    requires
        default <= max,
    ensures
        match number_of(texts(values@), default as int, max as int) {
            Ok(value) => number matches Ok(n) && n == value && n <= max,
            Err(error) => number matches Err(e) && e == error,
        },
{
    if values.len() == 0 {
        Ok(default)
    } else if values.len() > 1 {
        Err(ListenParamsError::Repeated)
    } else {
        match parse_number(values[0].as_str(), max) {
            Ok(value) => {
                proof {
                    lemma_number_in_range(values@[0]@, max as int);
                }
                Ok(value)
            },
            Err(error) => Err(ListenParamsError::Number(error)),
        }
    }
}

proof fn lemma_digits_in_range(digits: Seq<char>, max: int)
    requires
        0 <= max,
    ensures
        read_digits(digits, max) matches Ok(value) ==> 0 <= value <= max,
    decreases digits.len(),
{
    if digits.len() > 0 {
        lemma_digits_in_range(digits.drop_last(), max);
    }
}

proof fn lemma_number_in_range(text: Seq<char>, max: int)
    requires
        0 <= max,
    ensures
        read_number(text, max) matches Ok(value) ==> 0 <= value <= max,
{
    lemma_digits_in_range(text, max);
    lemma_digits_in_range(text.skip(1), max);
}

/// The parameters that decoded pairs stand for.
pub fn params_from_pairs(pairs: &Vec<(String, String)>) -> (params: Result<
    ListenParams,
    ListenParamsError,
>)
    ensures
        match params_of(pair_texts(pairs@)) {
            Ok(expected) => params matches Ok(p) && p@ == expected,
            Err(error) => params matches Err(e) && e == error,
        },
{
    let ghost all = pair_texts(pairs@);
    let channels_key: String = "channels".to_string();
    let sample_rate_key: String = "sample_rate".to_string();
    let channels = parse_values(
        &collect_values(pairs, "channels"),
        DEFAULT_CHANNELS as u32,
        u8::MAX as u32,
    );
    let sample_rate = parse_values(
        &collect_values(pairs, "sample_rate"),
        DEFAULT_SAMPLE_RATE,
        u32::MAX,
    );
    let mut i: usize = 0;
    while i < pairs.len()
        invariant
            i <= pairs@.len(),
            all == pair_texts(pairs@),
            channels_key@ == "channels"@,
            sample_rate_key@ == "sample_rate"@,
            match channels_of(all) {
                Ok(value) => channels matches Ok(n) && n == value && n <= u8::MAX,
                Err(error) => channels matches Err(e) && e == error,
            },
            match sample_rate_of(all) {
                Ok(value) => sample_rate matches Ok(n) && n == value,
                Err(error) => sample_rate matches Err(e) && e == error,
            },
            first_error(all, i as int) is None,
        decreases pairs@.len() - i,
    {
        assert(all[i as int].0 == pairs@[i as int].0@);
        if pairs[i].0 == channels_key {
            if let Err(error) = channels {
                proof {
                    lemma_first_error(all, i as int);
                }
                return Err(error);
            }
        }
        if pairs[i].0 == sample_rate_key {
            if let Err(error) = sample_rate {
                proof {
                    reveal_strlit("channels");
                    reveal_strlit("sample_rate");
                    lemma_first_error(all, i as int);
                }
                return Err(error);
            }
        }
        i += 1;
    }
    match (channels, sample_rate) {
        (Ok(channels), Ok(sample_rate)) => Ok(
            ListenParams {
                languages: collect_values(pairs, "language"),
                keywords: collect_values(pairs, "keywords"),
                channels: channels as u8,
                sample_rate,
            },
        ),
        (Err(error), _) => {
            proof {
                lemma_error_has_pair(all, "channels"@);
                lemma_no_error_before(all, all.len() as int);
            }
            Err(error)
        },
        (_, Err(error)) => {
            proof {
                lemma_error_has_pair(all, "sample_rate"@);
                lemma_no_error_before(all, all.len() as int);
            }
            Err(error)
        },
    }
}

/// The parameters that a query stands for.
pub open spec fn query_params(query: Seq<char>) -> Result<ListenParamsView, ListenParamsError> {
    params_of(form_pairs(query))
}

/// Reads the query of a listen request. A query is refused only for what it gives as the number
/// of channels or as the sample rate.
pub fn parse_listen_params(query: &str) -> (params: Result<ListenParams, ListenParamsError>)
    ensures
        match query_params(query@) {
            Ok(expected) => params matches Ok(p) && p@ == expected,
            Err(error) => params matches Err(e) && e == error,
        },
        params is Ok <==> channels_of(form_pairs(query@)) is Ok && sample_rate_of(
            form_pairs(query@),
        ) is Ok,
        query@.len() == 0 ==> (params matches Ok(p) && p@ == (ListenParamsView {
            languages: Seq::empty(),
            keywords: Seq::empty(),
            channels: DEFAULT_CHANNELS,
            sample_rate: DEFAULT_SAMPLE_RATE,
        })),
{
    let pairs = decode_form(query).unwrap();
    proof {
        law_refused_only_for_a_number(pair_texts(pairs@));
    }
    params_from_pairs(&pairs)
}

/// The error of pair `i` is the first one where none comes before it.
proof fn lemma_first_error(pairs: Seq<(Seq<char>, Seq<char>)>, i: int)
    requires
        0 <= i < pairs.len(),
        first_error(pairs, i) is None,
        key_error(pairs, pairs[i].0) is Some,
    ensures
        first_error(pairs, pairs.len() as int) == key_error(pairs, pairs[i].0),
{
    assert(first_error(pairs, i + 1) == key_error(pairs, pairs[i].0));
    lemma_first_error_stays(pairs, i + 1, pairs.len() as int);
}

proof fn lemma_first_error_stays(pairs: Seq<(Seq<char>, Seq<char>)>, i: int, n: int)
    requires
        0 <= i <= n <= pairs.len(),
        first_error(pairs, i) is Some,
    ensures
        first_error(pairs, n) == first_error(pairs, i),
    decreases n - i,
{
    if i < n {
        lemma_first_error_stays(pairs, i, n - 1);
    }
}

pub(crate) proof fn lemma_no_error_before(pairs: Seq<(Seq<char>, Seq<char>)>, n: int)
    requires
        0 <= n <= pairs.len(),
        first_error(pairs, n) is None,
    ensures
        forall|i: int| 0 <= i < n ==> key_error(pairs, #[trigger] pairs[i].0) is None,
    decreases n,
{
    if n > 0 {
        lemma_no_error_before(pairs, n - 1);
    }
}

/// A key with values stands in one of the pairs.
pub(crate) proof fn lemma_error_has_pair(pairs: Seq<(Seq<char>, Seq<char>)>, key: Seq<char>)
    ensures
        values_of(pairs, key).len() > 0 ==> exists|i: int|
            0 <= i < pairs.len() && #[trigger] pairs[i].0 == key,
    decreases pairs.len(),
{
    if pairs.len() > 0 {
        lemma_error_has_pair(pairs.drop_last(), key);
        if pairs.last().0 == key {
            assert(pairs[pairs.len() - 1].0 == key);
        } else if values_of(pairs, key).len() > 0 {
            let i = choose|i: int|
                0 <= i < pairs.drop_last().len() && #[trigger] pairs.drop_last()[i].0 == key;
            assert(pairs[i].0 == key);
        }
    }
}

} // verus!
