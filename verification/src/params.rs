use vstd::prelude::*;
use vstd::utf8::encode_utf8;

verus! {

/// What a [`SessionParams`] holds.
pub struct SessionParamsView {
    pub language: Option<Seq<char>>,
    pub model: Option<Seq<char>>,
    pub punctuate: bool,
    pub interim_results: bool,
}

/// What the caller chooses when a session starts. A language or a model that is left out is
/// left to the provider.
#[derive(Debug, PartialEq, Eq)]
pub struct SessionParams {
    pub language: Option<String>,
    pub model: Option<String>,
    pub punctuate: bool,
    pub interim_results: bool,
}

impl View for SessionParams {
    type V = SessionParamsView;

    open spec fn view(&self) -> SessionParamsView {
        SessionParamsView {
            language: match self.language {
                Some(l) => Some(l@),
                None => None,
            },
            model: match self.model {
                Some(m) => Some(m@),
                None => None,
            },
            punctuate: self.punctuate,
            interim_results: self.interim_results,
        }
    }
}

impl Clone for SessionParams {
    fn clone(&self) -> (copy: SessionParams)
        ensures
            copy@ == self@,
    {
        SessionParams {
            language: match &self.language {
                Some(l) => Some(l.clone()),
                None => None,
            },
            model: match &self.model {
                Some(m) => Some(m.clone()),
                None => None,
            },
            punctuate: self.punctuate,
            interim_results: self.interim_results,
        }
    }
}

impl Default for SessionParams {
    /// Punctuation and interim results, with language and model left to the provider.
    fn default() -> (params: SessionParams)
        ensures
            params@ == (SessionParamsView {
                language: None,
                model: None,
                punctuate: true,
                interim_results: true,
            }),
    {
        SessionParams { language: None, model: None, punctuate: true, interim_results: true }
    }
}

/// The code that the provider knows a language by. A language that is given by its English
/// name is mapped to its code; anything else is taken to be a code already.
pub open spec fn language_code_of(language: Seq<char>) -> Seq<char> {
    if language == "English"@ {
        "en"@
    } else if language == "Spanish"@ {
        "es"@
    } else if language == "French"@ {
        "fr"@
    } else if language == "German"@ {
        "de"@
    } else if language == "Italian"@ {
        "it"@
    } else if language == "Portuguese"@ {
        "pt"@
    } else if language == "Dutch"@ {
        "nl"@
    } else if language == "Hindi"@ {
        "hi"@
    } else {
        language
    }
}

/// The code that the provider knows `language` by.
pub fn language_code(language: &str) -> (code: String)
    ensures
        code@ == language_code_of(language@),
{
    if language.eq("English") {
        "en".to_owned()
    } else if language.eq("Spanish") {
        "es".to_owned()
    } else if language.eq("French") {
        "fr".to_owned()
    } else if language.eq("German") {
        "de".to_owned()
    } else if language.eq("Italian") {
        "it".to_owned()
    } else if language.eq("Portuguese") {
        "pt".to_owned()
    } else if language.eq("Dutch") {
        "nl".to_owned()
    } else if language.eq("Hindi") {
        "hi".to_owned()
    } else {
        language.to_owned()
    }
}

/// Bytes that stand for themselves in a query: ASCII letters, digits, `-`, `.`, `_` and `~`.
pub open spec fn is_unreserved(b: u8) -> bool {
    ||| 0x41 <= b <= 0x5a
    ||| 0x61 <= b <= 0x7a
    ||| 0x30 <= b <= 0x39
    ||| b == 0x2d
    ||| b == 0x2e
    ||| b == 0x5f
    ||| b == 0x7e
}

/// The upper-case hexadecimal digit for a value below sixteen.
pub open spec fn hex_digit_of(n: u8) -> char {
    if n < 10 {
        ((48 + n) as u8) as char
    } else {
        ((55 + n) as u8) as char
    }
}

/// One byte as it stands in a query: itself, or `%` and its two hexadecimal digits.
pub open spec fn encoded_byte(b: u8) -> Seq<char> {
    if is_unreserved(b) {
        seq![b as char]
    } else {
        seq!['%', hex_digit_of(b / 16), hex_digit_of(b % 16)]
    }
}

/// A sequence of bytes, percent-encoded byte by byte.
pub open spec fn percent_encoded(bytes: Seq<u8>) -> Seq<char>
    decreases bytes.len(),
{
    if bytes.len() == 0 {
        Seq::empty()
    } else {
        percent_encoded(bytes.drop_last()) + encoded_byte(bytes.last())
    }
}

fn unreserved(b: u8) -> (yes: bool)
    ensures
        yes == is_unreserved(b),
{
    (0x41 <= b && b <= 0x5a) || (0x61 <= b && b <= 0x7a) || (0x30 <= b && b <= 0x39) || b == 0x2d
        || b == 0x2e || b == 0x5f || b == 0x7e
}

fn hex_digit(n: u8) -> (digit: char)
    requires
        n < 16,
    ensures
        digit == hex_digit_of(n),
{
    if n < 10 {
        (48 + n) as char
    } else {
        (55 + n) as char
    }
}

/// Appends the percent-encoding of `value` to `out`.
pub fn push_percent_encoded(out: &mut String, value: &str)
    ensures
        final(out)@ == old(out)@ + percent_encoded(encode_utf8(value@)),
{
    let bytes = value.as_bytes();
    let mut i: usize = 0;
    while i < bytes.len()
        invariant
            i <= bytes.len(),
            bytes@ == encode_utf8(value@),
            out@ == old(out)@ + percent_encoded(bytes@.take(i as int)),
        decreases bytes.len() - i,
    {
        let b = bytes[i];
        proof {
            let before = bytes@.take(i as int);
            let after = bytes@.take(i + 1);
            assert(after.drop_last() =~= before);
            assert(after.last() == b);
        }
        if unreserved(b) {
            out.push(b as char);
        } else {
            out.push('%');
            out.push(hex_digit(b / 16));
            out.push(hex_digit(b % 16));
        }
        proof {
            assert(out@ =~= old(out)@ + percent_encoded(bytes@.take(i + 1)));
        }
        i += 1;
    }
    proof {
        assert(bytes@.take(bytes@.len() as int) =~= bytes@);
    }
}

/// The address of the provider's streaming endpoint, without a query.
pub open spec fn endpoint() -> Seq<char> {
    "wss://api.deepgram.com/v1/listen"@
}

/// `true` or `false`, as a query writes a flag.
pub open spec fn flag_word(flag: bool) -> Seq<char> {
    if flag {
        "true"@
    } else {
        "false"@
    }
}

/// The part of the query that names the model, where one is chosen.
pub open spec fn model_query(model: Option<Seq<char>>) -> Seq<char> {
    match model {
        Some(m) => "&model="@ + percent_encoded(encode_utf8(m)),
        None => Seq::empty(),
    }
}

/// The part of the query that names the language, where one is chosen.
pub open spec fn language_query(language: Option<Seq<char>>) -> Seq<char> {
    match language {
        Some(l) => "&language="@ + percent_encoded(encode_utf8(language_code_of(l))),
        None => Seq::empty(),
    }
}

/// The address a session with these parameters connects to: the endpoint, then `punctuate`,
/// `interim_results`, `model` and `language` in this order.
pub open spec fn listen_url_of(params: SessionParamsView) -> Seq<char> {
    endpoint() + "?punctuate="@ + flag_word(params.punctuate) + "&interim_results="@ + flag_word(
        params.interim_results,
    ) + model_query(params.model) + language_query(params.language)
}

fn flag_str(flag: bool) -> (word: &'static str)
    ensures
        word@ == flag_word(flag),
{
    if flag {
        "true"
    } else {
        "false"
    }
}

/// The address a session with these parameters connects to.
pub fn listen_url(params: &SessionParams) -> (url: String)
    ensures
        url@ == listen_url_of(params@),
{
    let mut url = "wss://api.deepgram.com/v1/listen".to_owned();
    url.append("?punctuate=");
    url.append(flag_str(params.punctuate));
    url.append("&interim_results=");
    url.append(flag_str(params.interim_results));
    match &params.model {
        Some(model) => {
            url.append("&model=");
            push_percent_encoded(&mut url, model.as_str());
        },
        None => {},
    }
    let ghost with_model = url@;
    match &params.language {
        Some(language) => {
            let code = language_code(language.as_str());
            url.append("&language=");
            push_percent_encoded(&mut url, code.as_str());
            proof {
                assert(url@ =~= with_model + language_query(params@.language));
            }
        },
        None => {
            proof {
                assert(url@ =~= with_model + language_query(params@.language));
            }
        },
    }
    proof {
        assert(with_model =~= endpoint() + "?punctuate="@ + flag_word(params.punctuate)
            + "&interim_results="@ + flag_word(params.interim_results) + model_query(
            params@.model,
        ));
    }
    url
}

} // verus!
