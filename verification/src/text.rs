//! Verified text utilities: substring search, trimming, sanitizing, and the
//! fixed texts that requests to the analysis service are built from.

use vstd::prelude::*;

verus! {

/// Relies on std's String::push: appends exactly one character at the end.
#[verifier::external_body]
fn push_char(s: &mut String, c: char)
    ensures
        final(s)@ == old(s)@ + seq![c],
{
    s.push(c);
}

/// The pattern occurs in the text starting at position `i`.
pub open spec fn matches_at(text: Seq<char>, pat: Seq<char>, i: int) -> bool {
    &&& 0 <= i
    &&& i + pat.len() <= text.len()
    &&& text.subrange(i, i + pat.len() as int) == pat
}

/// The pattern occurs somewhere in the text.
pub open spec fn contains_seq(text: Seq<char>, pat: Seq<char>) -> bool {
    exists|i: int| matches_at(text, pat, i)
}

/// Compares one candidate position of the pattern inside the text.
fn match_at(text: &str, pat: &str, i: usize) -> (r: bool)
    requires
        i + pat@.len() <= text@.len(),
    ensures
        r == matches_at(text@, pat@, i as int),
{
    let n = text.unicode_len();
    let m = pat.unicode_len();
    let mut k: usize = 0;
    while k < m
        invariant
            k <= m,
            m == pat@.len(),
            n == text@.len(),
            i + m <= n,
            forall|j: int| 0 <= j < k ==> text@[i + j] == pat@[j],
        decreases m - k,
    {
        if text.get_char(i + k) != pat.get_char(k) {
            assert(text@.subrange(i as int, i + m as int)[k as int] != pat@[k as int]);
            return false;
        }
        k = k + 1;
    }
    assert(text@.subrange(i as int, i + m as int) =~= pat@);
    true
}

/// Whether the text holds the pattern as a contiguous run of characters.
pub fn str_contains(text: &str, pat: &str) -> (r: bool)
    ensures
        r == contains_seq(text@, pat@),
{
    let n = text.unicode_len();
    let m = pat.unicode_len();
    if m > n {
        assert(forall|i: int| !matches_at(text@, pat@, i));
        return false;
    }
    if m == 0 {
        assert(text@.subrange(0, 0) =~= pat@);
        assert(matches_at(text@, pat@, 0));
        return true;
    }
    let mut i: usize = 0;
    while i <= n - m
        invariant
            1 <= m <= n,
            n == text@.len(),
            m == pat@.len(),
            i <= n - m + 1,
            forall|j: int| 0 <= j < i ==> !matches_at(text@, pat@, j),
        decreases n - m - i + 1,
    {
        if match_at(text, pat, i) {
            return true;
        }
        i = i + 1;
    }
    assert(forall|j: int| !matches_at(text@, pat@, j));
    false
}

/// Whether two string slices hold the same characters.
pub fn str_eq(a: &str, b: &str) -> (r: bool)
    ensures
        r == (a@ == b@),
{
    let n = a.unicode_len();
    if n != b.unicode_len() {
        return false;
    }
    let mut i: usize = 0;
    while i < n
        invariant
            i <= n,
            n == a@.len(),
            n == b@.len(),
            forall|j: int| 0 <= j < i ==> a@[j] == b@[j],
        decreases n - i,
    {
        if a.get_char(i) != b.get_char(i) {
            return false;
        }
        i = i + 1;
    }
    assert(a@ =~= b@);
    true
}

/// The characters the library strips and tests for when trimming.
pub open spec fn is_space_char(c: char) -> bool {
    c == ' ' || c == '\t' || c == '\n' || c == '\r'
}

/// Executable form of `is_space_char`.
pub fn is_space(c: char) -> (r: bool)
    ensures
        r == is_space_char(c),
{
    c == ' ' || c == '\t' || c == '\n' || c == '\r'
}

/// The text holds nothing but whitespace (in particular, nothing at all).
pub open spec fn all_space(s: Seq<char>) -> bool {
    forall|i: int| 0 <= i < s.len() ==> is_space_char(s[i])
}

/// Whether a transcript carries no visible text and so has nothing to analyze.
pub fn is_blank(s: &str) -> (r: bool)
    ensures
        r == all_space(s@),
{
    let n = s.unicode_len();
    let mut i: usize = 0;
    while i < n
        invariant
            i <= n,
            n == s@.len(),
            forall|j: int| 0 <= j < i ==> is_space_char(s@[j]),
        decreases n - i,
    {
        if !is_space(s.get_char(i)) {
            return false;
        }
        i = i + 1;
    }
    true
}

/// The text with its leading whitespace removed.
pub open spec fn trim_front(s: Seq<char>) -> Seq<char>
    decreases s.len(),
{
    if s.len() > 0 && is_space_char(s[0]) {
        trim_front(s.subrange(1, s.len() as int))
    } else {
        s
    }
}

/// The text with its trailing whitespace removed.
pub open spec fn trim_back(s: Seq<char>) -> Seq<char>
    decreases s.len(),
{
    if s.len() > 0 && is_space_char(s[s.len() - 1]) {
        trim_back(s.subrange(0, s.len() - 1))
    } else {
        s
    }
}

/// The text with whitespace removed from both ends.
pub open spec fn trim_spec(s: Seq<char>) -> Seq<char> {
    trim_back(trim_front(s))
}

/// Leading whitespace can be dropped all at once.
proof fn lemma_trim_front_skip(s: Seq<char>, k: int)
    requires
        0 <= k <= s.len(),
        forall|j: int| 0 <= j < k ==> is_space_char(s[j]),
    ensures
        trim_front(s) == trim_front(s.subrange(k, s.len() as int)),
    decreases k,
{
    if k == 0 {
        assert(s.subrange(0, s.len() as int) =~= s);
    } else {
        let t = s.subrange(1, s.len() as int);
        assert(is_space_char(s[0]));
        lemma_trim_front_skip(t, k - 1);
        assert(t.subrange(k - 1, t.len() as int) =~= s.subrange(k, s.len() as int));
    }
}

/// Trailing whitespace can be dropped all at once.
proof fn lemma_trim_back_drop(s: Seq<char>, m: int)
    requires
        0 <= m <= s.len(),
        forall|j: int| m <= j < s.len() ==> is_space_char(s[j]),
    ensures
        trim_back(s) == trim_back(s.subrange(0, m)),
    decreases s.len() - m,
{
    if m == s.len() {
        assert(s.subrange(0, m) =~= s);
    } else {
        let t = s.subrange(0, s.len() - 1);
        assert(is_space_char(s[s.len() - 1]));
        lemma_trim_back_drop(t, m);
        assert(t.subrange(0, m) =~= s.subrange(0, m));
    }
}

/// Copies the text with whitespace removed from both ends.
pub fn trim_str(s: &str) -> (r: String)
    ensures
        r@ == trim_spec(s@),
{
    let n = s.unicode_len();
    let mut start: usize = 0;
    while start < n && is_space(s.get_char(start))
        invariant
            start <= n,
            n == s@.len(),
            forall|j: int| 0 <= j < start ==> is_space_char(s@[j]),
        decreases n - start,
    {
        start = start + 1;
    }
    let mut end: usize = n;
    while end > start && is_space(s.get_char(end - 1))
        invariant
            start <= end <= n,
            n == s@.len(),
            forall|j: int| end <= j < n ==> is_space_char(s@[j]),
        decreases end,
    {
        end = end - 1;
    }
    proof {
        lemma_trim_front_skip(s@, start as int);
        let f = s@.subrange(start as int, n as int);
        assert(trim_front(f) == f);
        lemma_trim_back_drop(f, end - start);
        assert(f.subrange(0, end - start) =~= s@.subrange(start as int, end as int));
        assert(trim_back(f.subrange(0, end - start)) == f.subrange(0, end - start));
    }
    let out = s.substring_char(start, end);
    String::from_str(out)
}

/// One character as it appears after sanitizing: double quotes become single
/// quotes and line breaks become spaces, so the text can sit inside a quoted
/// JSON string.
pub open spec fn sanitized_char(c: char) -> char {
    if c == '"' {
        '\''
    } else if c == '\n' {
        ' '
    } else {
        c
    }
}

/// The whole text after sanitizing.
pub open spec fn sanitize_spec(s: Seq<char>) -> Seq<char> {
    s.map_values(|c: char| sanitized_char(c))
}

/// Copies the text with double quotes and line breaks replaced, so it can be
/// embedded in a quoted JSON string.
pub fn sanitize_text(s: &str) -> (r: String)
    ensures
        r@ == sanitize_spec(s@),
{
    let n = s.unicode_len();
    let mut out = String::new();
    let mut i: usize = 0;
    while i < n
        invariant
            i <= n,
            n == s@.len(),
            out@ =~= s@.subrange(0, i as int).map_values(|c: char| sanitized_char(c)),
        decreases n - i,
    {
        let c = s.get_char(i);
        let replaced: char = if c == '"' {
            '\''
        } else if c == '\n' {
            ' '
        } else {
            c
        };
        push_char(&mut out, replaced);
        proof {
            assert(s@.subrange(0, i + 1).map_values(|c: char| sanitized_char(c)) =~= s@.subrange(
                0,
                i as int,
            ).map_values(|c: char| sanitized_char(c)) + seq![sanitized_char(s@[i as int])]);
        }
        i = i + 1;
    }
    proof {
        assert(s@.subrange(0, n as int) =~= s@);
    }
    out
}

/// The character for one decimal digit.
pub open spec fn digit_char(d: int) -> char {
    if d == 0 {
        '0'
    } else if d == 1 {
        '1'
    } else if d == 2 {
        '2'
    } else if d == 3 {
        '3'
    } else if d == 4 {
        '4'
    } else if d == 5 {
        '5'
    } else if d == 6 {
        '6'
    } else if d == 7 {
        '7'
    } else if d == 8 {
        '8'
    } else {
        '9'
    }
}

/// The decimal numeral of a number, most significant digit first.
pub open spec fn dec_str(n: nat) -> Seq<char>
    decreases n,
{
    if n < 10 {
        seq![digit_char(n as int)]
    } else {
        dec_str((n / 10) as nat) + seq![digit_char((n % 10) as int)]
    }
}

/// One decimal digit as a character.
fn digit_to_char(d: u64) -> (c: char)
    requires
        d < 10,
    ensures
        c == digit_char(d as int),
{
    match d {
        0 => '0',
        1 => '1',
        2 => '2',
        3 => '3',
        4 => '4',
        5 => '5',
        6 => '6',
        7 => '7',
        8 => '8',
        _ => '9',
    }
}

/// Writes a number in decimal.
pub fn u64_to_dec(n: u64) -> (r: String)
    ensures
        r@ == dec_str(n as nat),
    decreases n,
{
    if n < 10 {
        let mut s = String::new();
        push_char(&mut s, digit_to_char(n));
        proof {
            assert(Seq::<char>::empty() + seq![digit_char(n as int)] =~= seq![
                digit_char(n as int),
            ]);
        }
        s
    } else {
        let mut s = u64_to_dec(n / 10);
        push_char(&mut s, digit_to_char(n % 10));
        s
    }
}

/// The stand-in intelligence text built when the analysis stage fails for a
/// transcript: the transcript itself, sanitized, inside a neutral
/// low-confidence payload.
pub open spec fn fallback_intelligence_spec(transcript: Seq<char>) -> Seq<char> {
    "{\"transcript\":\""@ + sanitize_spec(transcript)
        + "\",\"tone\":\"NEUTRAL\",\"category\":[\"INFO\"],\"confidence\":0.5}"@
}

/// Builds the stand-in intelligence payload for a transcript whose analysis
/// failed, so the transcript is still delivered.
pub fn fallback_intelligence(transcript: &str) -> (r: String)
    ensures
        r@ == fallback_intelligence_spec(transcript@),
{
    let sanitized = sanitize_text(transcript);
    String::from_str("{\"transcript\":\"").concat(sanitized.as_str()).concat(
        "\",\"tone\":\"NEUTRAL\",\"category\":[\"INFO\"],\"confidence\":0.5}",
    )
}

/// The user-visible text of an analysis request: a fixed instruction line
/// followed by the transcript.
pub fn analysis_prompt(transcript: &str) -> (r: String)
    ensures
        r@ == "Analyze this meeting transcript:\n\n"@ + transcript@,
{
    String::from_str("Analyze this meeting transcript:\n\n").concat(transcript)
}

/// The fixed system instruction sent with every analysis request.
pub open spec fn intelligence_prompt_text() -> Seq<char> {
    "You are a PASSIVE MEETING INTELLIGENCE ENGINE analyzing transcribed speech.\n\nINPUT: Transcribed text from a meeting.\nOUTPUT: JSON intelligence extraction.\n\nFORMAT:\n{\"transcript\":\"original text\",\"speaker\":\"Speaker 1\",\"tone\":\"NEUTRAL\",\"category\":[\"TASK\"],\"confidence\":0.85,\"summary\":\"Brief summary if applicable\"}\n\nRULES:\n- JSON only, no markdown\n- Analyze the PROVIDED TEXT (already transcribed)\n- tone: NEUTRAL|URGENT|FRUSTRATED|EXCITED|POSITIVE|NEGATIVE|HESITANT|DOMINANT|EMPATHETIC\n- category: TASK|DECISION|DEADLINE|QUERY|ACTION_ITEM|RISK|SENTIMENT|URGENCY|INTERRUPTION|AGREEMENT|DISAGREEMENT|OFF_TOPIC|EMOTION_SHIFT|DOMINANCE_SHIFT|EMPATHY_GAP|TOPIC_DRIFT\n- confidence: 0.0-1.0\n- Extract entities (people, dates, projects) if present\n- For low-confidence or unclear: lower confidence value, not error"@
}

/// Hands out the fixed system instruction sent with every analysis request.
pub fn intelligence_prompt() -> (r: String)
    ensures
        r@ == intelligence_prompt_text(),
{
    String::from_str(
        "You are a PASSIVE MEETING INTELLIGENCE ENGINE analyzing transcribed speech.\n\nINPUT: Transcribed text from a meeting.\nOUTPUT: JSON intelligence extraction.\n\nFORMAT:\n{\"transcript\":\"original text\",\"speaker\":\"Speaker 1\",\"tone\":\"NEUTRAL\",\"category\":[\"TASK\"],\"confidence\":0.85,\"summary\":\"Brief summary if applicable\"}\n\nRULES:\n- JSON only, no markdown\n- Analyze the PROVIDED TEXT (already transcribed)\n- tone: NEUTRAL|URGENT|FRUSTRATED|EXCITED|POSITIVE|NEGATIVE|HESITANT|DOMINANT|EMPATHETIC\n- category: TASK|DECISION|DEADLINE|QUERY|ACTION_ITEM|RISK|SENTIMENT|URGENCY|INTERRUPTION|AGREEMENT|DISAGREEMENT|OFF_TOPIC|EMOTION_SHIFT|DOMINANCE_SHIFT|EMPATHY_GAP|TOPIC_DRIFT\n- confidence: 0.0-1.0\n- Extract entities (people, dates, projects) if present\n- For low-confidence or unclear: lower confidence value, not error",
    )
}

/// The endpoint an analysis request is posted to, parameterized by model
/// identifier and API key.
pub fn request_url(model: &str, key: &str) -> (r: String)
    ensures
        r@ == "https://generativelanguage.googleapis.com/v1beta/models/"@ + model@
            + ":generateContent?key="@ + key@,
{
    String::from_str("https://generativelanguage.googleapis.com/v1beta/models/").concat(
        model,
    ).concat(":generateContent?key=").concat(key)
}

/// At most the first `max` characters of the text.
pub open spec fn clip_spec(s: Seq<char>, max: int) -> Seq<char> {
    if s.len() <= max {
        s
    } else {
        s.subrange(0, max)
    }
}

/// Copies at most the first `max` characters, used to keep reported response
/// bodies short.
pub fn clip_chars(s: &str, max: usize) -> (r: String)
    ensures
        r@ == clip_spec(s@, max as int),
{
    let n = s.unicode_len();
    if n <= max {
        proof {
            assert(s@.subrange(0, n as int) =~= s@);
        }
        String::from_str(s.substring_char(0, n))
    } else {
        String::from_str(s.substring_char(0, max))
    }
}

} // verus!
