use vstd::prelude::*;

verus! {

/// The firmware families a device can be recognised as.
#[derive(Debug, Clone, Copy, PartialEq, Eq, Structural)]
pub enum MinerBackend {
    AntMiner,
    WhatsMiner,
    AvalonMiner,
    Innosilicon,
    Goldshell,
    BraiinsOS,
    VNish,
    Hiveon,
    LuxOS,
    Unknown,
}

/// `p` occurs in `s` as a contiguous run of characters.
pub open spec fn has_sub(s: Seq<char>, p: Seq<char>) -> bool {
    exists|i: int| 0 <= i <= s.len() - p.len() && #[trigger] s.subrange(i, i + p.len()) == p
}

/// The backend that an already upper-cased reply names, by the first
/// signature that matches.
pub open spec fn backend_of(s: Seq<char>) -> MinerBackend {
    if has_sub(s, "BITMICRO"@) || has_sub(s, "BTMINER"@) {
        MinerBackend::WhatsMiner
    } else if has_sub(s, "BOSER"@) || has_sub(s, "BOSMINER"@) {
        MinerBackend::BraiinsOS
    } else if has_sub(s, "VNISH"@) {
        MinerBackend::VNish
    } else if has_sub(s, "HIVEON"@) {
        MinerBackend::Hiveon
    } else if has_sub(s, "LUXMINER"@) {
        MinerBackend::LuxOS
    } else if has_sub(s, "ANTMINER"@) && !has_sub(s, "DEVDETAILS"@) {
        MinerBackend::AntMiner
    } else if has_sub(s, "INTCHAINS_QOMO"@) {
        MinerBackend::Goldshell
    } else if has_sub(s, "AVALON"@) {
        MinerBackend::AvalonMiner
    } else {
        MinerBackend::Unknown
    }
}

/// The characters of `s`, in order.
pub fn chars_of(s: &str) -> (r: Vec<char>)
    ensures
        r@ == s@,
{
    let mut v: Vec<char> = Vec::new();
    for c in it: s.chars()
        invariant
            v@ == it.seq().take(it.index() as int),
    {
        v.push(c);
    }
    v
}


/// Whether `pat` occurs in `text` at position `i`.
fn matches_at(text: &Vec<char>, pat: &Vec<char>, i: usize) -> (r: bool)
    requires
        i + pat@.len() <= text@.len(),
    ensures
        r == (text@.subrange(i as int, i + pat@.len()) == pat@),
{
    let n: usize = text.len();
    let mut j: usize = 0;
    while j < pat.len()
        invariant
            j <= pat@.len(),
            n == text@.len(),
            i + pat@.len() <= text@.len(),
            forall|k: int| 0 <= k < j ==> text@[i + k] == pat@[k],
        decreases pat@.len() - j,
    {
        if text[i + j] != pat[j] {
            assert(text@.subrange(i as int, i + pat@.len())[j as int] != pat@[j as int]);
            return false;
        }
        j += 1;
    }
    assert(text@.subrange(i as int, i + pat@.len()) =~= pat@);
    true
}

/// Whether `pat` occurs anywhere in `text`.
pub fn contains_chars(text: &Vec<char>, pat: &Vec<char>) -> (r: bool)
    ensures
        r == has_sub(text@, pat@),
{
    if pat.len() > text.len() {
        return false;
    }
    let last: usize = text.len() - pat.len();
    let mut i: usize = 0;
    while i < last
        invariant
            last == text@.len() - pat@.len(),
            i <= last,
            forall|k: int| 0 <= k < i ==> #[trigger] text@.subrange(k, k + pat@.len()) != pat@,
        decreases last - i,
    {
        if matches_at(text, pat, i) {
            return true;
        }
        i += 1;
    }
    matches_at(text, pat, last)
}

/// Whether the signature `sig` occurs in `text`.
fn has_signature(text: &Vec<char>, sig: &str) -> (r: bool)
    ensures
        r == has_sub(text@, sig@),
{
    let pat = chars_of(sig);
    contains_chars(text, &pat)
}

/// Picks the backend that an upper-cased reply names: the first signature
/// that matches wins, and a reply that matches none is `Unknown`.
pub fn _parse_miner_backend(socket_result: &str) -> (r: Option<MinerBackend>)
    ensures
        r == Some(backend_of(socket_result@)),
{
    let t = chars_of(socket_result);
    if has_signature(&t, "BITMICRO") || has_signature(&t, "BTMINER") {
        Some(MinerBackend::WhatsMiner)
    } else if has_signature(&t, "BOSER") || has_signature(&t, "BOSMINER") {
        Some(MinerBackend::BraiinsOS)
    } else if has_signature(&t, "VNISH") {
        Some(MinerBackend::VNish)
    } else if has_signature(&t, "HIVEON") {
        Some(MinerBackend::Hiveon)
    } else if has_signature(&t, "LUXMINER") {
        Some(MinerBackend::LuxOS)
    } else if has_signature(&t, "ANTMINER") && !has_signature(&t, "DEVDETAILS") {
        Some(MinerBackend::AntMiner)
    } else if has_signature(&t, "INTCHAINS_QOMO") {
        Some(MinerBackend::Goldshell)
    } else if has_signature(&t, "AVALON") {
        Some(MinerBackend::AvalonMiner)
    } else {
        Some(MinerBackend::Unknown)
    }
}

/// What `str::to_uppercase` makes of a string.
pub uninterp spec fn upper_of(s: Seq<char>) -> Seq<char>;

/// Relies on `str::to_uppercase`: the result depends on the characters alone,
/// and an empty string stays empty.
#[verifier::external_body]
fn to_upper(s: &str) -> (r: String)
    ensures
        r@ == upper_of(s@),
        s@.len() == 0 ==> r@.len() == 0,
{
    s.to_uppercase()
}

/// The backend that a raw reply names, matched without regard to letter case.
pub open spec fn classification(text: Seq<char>) -> MinerBackend {
    backend_of(upper_of(text))
}

/// Classifies a raw reply: upper-cases it, then picks the first signature
/// that matches.
pub fn classify(text: &str) -> (r: MinerBackend)
    ensures
        r == classification(text@),
        text@.len() == 0 ==> r == MinerBackend::Unknown,
{
    let upper = to_upper(text);
    proof {
        if text@.len() == 0 {
            assert(upper@ =~= Seq::<char>::empty());
            lemma_empty_is_unknown();
        }
    }
    match _parse_miner_backend(upper.as_str()) {
        Some(kind) => kind,
        None => MinerBackend::Unknown,
    }
}


/// A reply whose upper-cased text holds `BTMINER` is WhatsMiner, whatever
/// else it holds: that signature is checked first.
pub proof fn lemma_btminer_wins(text: Seq<char>)
    requires
        has_sub(upper_of(text), "BTMINER"@),
    ensures
        classification(text) == MinerBackend::WhatsMiner,
{
}

/// A reply that holds `DEVDETAILS` is never taken for AntMiner.
pub proof fn lemma_devdetails_not_antminer(s: Seq<char>)
    requires
        has_sub(s, "DEVDETAILS"@),
    ensures
        backend_of(s) != MinerBackend::AntMiner,
{
}

/// No non-empty signature occurs in an empty text.
proof fn lemma_no_sub_in_empty(p: Seq<char>)
    requires
        p.len() > 0,
    ensures
        !has_sub(Seq::<char>::empty(), p),
{
}

/// An empty text matches no signature and is `Unknown`.
pub proof fn lemma_empty_is_unknown()
    ensures
        backend_of(Seq::<char>::empty()) == MinerBackend::Unknown,
{
    reveal_strlit("BITMICRO");
    reveal_strlit("BTMINER");
    reveal_strlit("BOSER");
    reveal_strlit("BOSMINER");
    reveal_strlit("VNISH");
    reveal_strlit("HIVEON");
    reveal_strlit("LUXMINER");
    reveal_strlit("ANTMINER");
    reveal_strlit("INTCHAINS_QOMO");
    reveal_strlit("AVALON");
    lemma_no_sub_in_empty("BITMICRO"@);
    lemma_no_sub_in_empty("BTMINER"@);
    lemma_no_sub_in_empty("BOSER"@);
    lemma_no_sub_in_empty("BOSMINER"@);
    lemma_no_sub_in_empty("VNISH"@);
    lemma_no_sub_in_empty("HIVEON"@);
    lemma_no_sub_in_empty("LUXMINER"@);
    lemma_no_sub_in_empty("ANTMINER"@);
    lemma_no_sub_in_empty("INTCHAINS_QOMO"@);
    lemma_no_sub_in_empty("AVALON"@);
}

/// Classification is a function of the text alone: the same text always
/// gets the same kind.
pub proof fn lemma_classification_deterministic(a: Seq<char>, b: Seq<char>)
    requires
        a == b,
    ensures
        classification(a) == classification(b),
{
}

} // verus!
