use vstd::prelude::*;
use crate::backend::chars_of;
use crate::json_api::{
    DIGIT_RUN_LIMIT, digits_between, element, has_long_digit_run, is_digit, json_element,
    json_has_key, json_is_array, json_len, json_member, json_parse, json_text, member, text_of,
};

verus! {

/// `s` with every NUL character removed; the rest keeps its order.
pub open spec fn without_nul(s: Seq<char>) -> Seq<char> {
    s.filter(|c: char| c != '\0')
}

proof fn lemma_without_nul_add(a: Seq<char>, b: Seq<char>)
    ensures
        without_nul(a + b) == without_nul(a) + without_nul(b),
{
    Seq::filter_distributes_over_add(a, b, |c: char| c != '\0');
}

proof fn lemma_without_nul_clean(s: Seq<char>)
    requires
        forall|k: int| 0 <= k < s.len() ==> s[k] != '\0',
    ensures
        without_nul(s) == s,
    decreases s.len(),
{
    if s.len() > 0 {
        lemma_without_nul_clean(s.drop_last());
        assert(s.drop_last().push(s.last()) == s);
        lemma_without_nul_add(s.drop_last(), seq![s.last()]);
        reveal_with_fuel(Seq::filter, 2);
        assert(without_nul(seq![s.last()]) == seq![s.last()]);
    }
}

proof fn lemma_without_nul_single_nul()
    ensures
        without_nul(seq!['\0']).len() == 0,
{
    reveal_with_fuel(Seq::filter, 2);
}

/// Removes every NUL character, which some devices pad their replies with.
pub fn strip_nul(s: &str) -> (r: String)
    ensures
        r@ == without_nul(s@),
{
    let t = chars_of(s);
    let n: usize = t.len();
    let mut out = String::new();
    let mut start: usize = 0;
    let mut i: usize = 0;
    while i < n
        invariant
            n == s@.len(),
            t@ == s@,
            start <= i <= n,
            out@ == without_nul(s@.take(start as int)),
            forall|k: int| start <= k < i ==> s@[k] != '\0',
        decreases n - i,
    {
        if t[i] == '\0' {
            let seg = s.substring_char(start, i);
            proof {
                let a = s@.take(start as int);
                let b = s@.subrange(start as int, i as int);
                assert(s@.take(i + 1) == a + b + seq!['\0']);
                lemma_without_nul_add(a + b, seq!['\0']);
                lemma_without_nul_add(a, b);
                lemma_without_nul_clean(b);
                lemma_without_nul_single_nul();
                assert(without_nul(a + b + seq!['\0']) == without_nul(a) + b);
            }
            out.append(seg);
            start = i + 1;
        }
        i += 1;
    }
    let seg = s.substring_char(start, n);
    proof {
        let a = s@.take(start as int);
        let b = s@.subrange(start as int, n as int);
        assert(s@ == a + b);
        lemma_without_nul_add(a, b);
        lemma_without_nul_clean(b);
    }
    out.append(seg);
    out
}


/// Why one query gave no usable reply.
#[derive(Debug, PartialEq, Eq)]
pub enum ProbeError {
    /// The connection could not be made, or reading or writing failed.
    Transport(String),
    /// The reply is not JSON, or lacks a status block with a status code.
    Malformed,
    /// The device answered with a failure code; the message it gave.
    Rejected(String),
}

/// What the decision reads from a reply's envelope, as text.
pub struct Envelope {
    /// `STATUS[0].STATUS`.
    pub code: String,
    /// The top-level `Msg`, where the reply has one.
    pub top_msg: Option<String>,
    /// `STATUS[0].Msg` (`null` where it is absent).
    pub status_msg: String,
}

/// The mathematical form of an `Envelope`.
pub struct EnvelopeView {
    pub code: Seq<char>,
    pub top_msg: Option<Seq<char>>,
    pub status_msg: Seq<char>,
}

impl View for Envelope {
    type V = EnvelopeView;

    open spec fn view(&self) -> EnvelopeView {
        EnvelopeView {
            code: self.code@,
            top_msg: match self.top_msg {
                Some(m) => Some(m@),
                None => None,
            },
            status_msg: self.status_msg@,
        }
    }
}

/// The status codes that mean success.
pub open spec fn is_success_code(code: Seq<char>) -> bool {
    code == "S"@ || code == "I"@
}

/// The message of a failed reply: the top-level one if present, else the
/// one inside the status block.
pub open spec fn failure_message(env: EnvelopeView) -> Seq<char> {
    match env.top_msg {
        Some(m) => m,
        None => env.status_msg,
    }
}

/// The envelope of a decoded reply: `None` unless `STATUS` is a non-empty
/// array whose first block has a `STATUS` field.
pub open spec fn envelope_in(v: json::JsonValue) -> Option<EnvelopeView> {
    let status = json_member(v, "STATUS"@);
    let block = json_element(status, 0);
    if !json_is_array(status) || json_len(status) == 0 || !json_has_key(block, "STATUS"@) {
        None
    } else {
        Some(
            EnvelopeView {
                code: json_text(json_member(block, "STATUS"@)),
                top_msg: if json_has_key(v, "Msg"@) {
                    Some(json_text(json_member(v, "Msg"@)))
                } else {
                    None
                },
                status_msg: json_text(json_member(block, "Msg"@)),
            },
        )
    }
}

/// The envelope of a raw reply, decoded with its NULs dropped; `None` where
/// the text cannot be decoded or has no envelope.
pub open spec fn envelope_of(raw: Seq<char>) -> Option<EnvelopeView> {
    let doc = without_nul(raw);
    if has_long_digit_run(doc) {
        None
    } else {
        match json_parse(doc) {
            Some(v) => envelope_in(v),
            None => None,
        }
    }
}

/// NULs do not change the decision: replies that differ only in where NULs
/// stand have the same envelope.
pub proof fn lemma_nuls_do_not_matter(a: Seq<char>, b: Seq<char>)
    requires
        without_nul(a) == without_nul(b),
    ensures
        envelope_of(a) == envelope_of(b),
{
}

/// Whether `code` is one of the success codes.
pub fn is_success(code: &String) -> (r: bool)
    ensures
        r == is_success_code(code@),
{
    proof {
        reveal_strlit("S");
        reveal_strlit("I");
    }
    let s = code.as_str();
    if s.unicode_len() != 1 {
        return false;
    }
    let c = s.get_char(0);
    assert(c == 'S' ==> s@ =~= "S"@);
    assert(c == 'I' ==> s@ =~= "I"@);
    c == 'S' || c == 'I'
}

/// Decides a reply from its envelope: on a success code the raw reply
/// itself, else a rejection carrying the device's message.
pub fn envelope_outcome(raw: String, env: Envelope) -> (r: Result<String, ProbeError>)
    ensures
        is_success_code(env@.code) ==> (r matches Ok(t) && t@ == raw@),
        !is_success_code(env@.code) ==> (r matches Err(ProbeError::Rejected(m)) && m@
            == failure_message(env@)),
{
    if is_success(&env.code) {
        Ok(raw)
    } else {
        match env.top_msg {
            Some(m) => Err(ProbeError::Rejected(m)),
            None => Err(ProbeError::Rejected(env.status_msg)),
        }
    }
}

/// Whether `s` holds more than `DIGIT_RUN_LIMIT` digits in a row.
pub fn long_digit_run(s: &str) -> (r: bool)
    ensures
        r == has_long_digit_run(s@),
{
    let t = chars_of(s);
    let n: usize = t.len();
    let mut run: usize = 0;
    let mut i: usize = 0;
    while i < n
        invariant
            n == s@.len(),
            t@ == s@,
            i <= n,
            run <= i,
            run <= DIGIT_RUN_LIMIT,
            digits_between(s@, i - run, i as int),
            i - run == 0 || !is_digit(s@[i - run - 1]),
            forall|j: int|
                0 <= j && j + DIGIT_RUN_LIMIT + 1 <= i ==> !#[trigger] digits_between(
                    s@,
                    j,
                    j + DIGIT_RUN_LIMIT + 1,
                ),
        decreases n - i,
    {
        let c = t[i];
        if '0' <= c && c <= '9' {
            if run == DIGIT_RUN_LIMIT {
                let ghost j: int = i - run;
                assert(digits_between(s@, j, j + DIGIT_RUN_LIMIT + 1));
                return true;
            }
            run += 1;
        } else {
            run = 0;
        }
        i += 1;
        proof {
            let j = i - DIGIT_RUN_LIMIT - 1;
            if j >= 0 {
                if run == 0 {
                    assert(!is_digit(s@[i - 1]));
                } else {
                    assert(j <= i - run - 1);
                    assert(!is_digit(s@[i - run - 1]));
                }
                assert(!digits_between(s@, j, j + DIGIT_RUN_LIMIT + 1));
            }
        }
    }
    false
}

/// Reads the fields the decision needs; `None` where the reply has no
/// non-empty `STATUS` array whose first block has a `STATUS` field.
fn read_envelope(v: &json::JsonValue) -> (r: Option<Envelope>)
    ensures
        match envelope_in(*v) {
            None => r is None,
            Some(e) => r matches Some(x) && x@ == e,
        },
{
    let status = member(v, "STATUS");
    if !status.is_array() || status.len() == 0 {
        return None;
    }
    let block = element(status, 0);
    if !block.has_key("STATUS") {
        return None;
    }
    let code = text_of(member(block, "STATUS"));
    let status_msg = text_of(member(block, "Msg"));
    let top_msg = if v.has_key("Msg") {
        Some(text_of(member(v, "Msg")))
    } else {
        None
    };
    Some(Envelope { code, top_msg, status_msg })
}

/// Checks a raw reply: NULs are dropped for decoding only. A reply whose
/// envelope carries a success code is handed on unchanged; another code is
/// a rejection with the device's message; no envelope is `Malformed`.
pub fn parse_result(result: String) -> (r: Result<String, ProbeError>)
    ensures
        match envelope_of(result@) {
            None => r == Err::<String, ProbeError>(ProbeError::Malformed),
            Some(env) => if is_success_code(env.code) {
                r matches Ok(t) && t@ == result@
            } else {
                r matches Err(ProbeError::Rejected(m)) && m@ == failure_message(env)
            },
        },
{
    let fixed_result = strip_nul(result.as_str());
    if long_digit_run(fixed_result.as_str()) {
        return Err(ProbeError::Malformed);
    }
    match json::parse(fixed_result.as_str()) {
        Err(_) => Err(ProbeError::Malformed),
        Ok(parsed) => match read_envelope(&parsed) {
            None => Err(ProbeError::Malformed),
            Some(env) => envelope_outcome(result, env),
        },
    }
}

} // verus!
