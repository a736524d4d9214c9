//! The search-gating workflow: a question is answered from the language
//! model's static knowledge when it is sure, and otherwise from web-search
//! results, never from stale or unverified information. Each stage takes what
//! the previous outside call returned and says what to do next.
use vstd::prelude::*;
use crate::text::{trim, trimmed};

verus! {

/// The exact reply by which the model says that it cannot answer from static
/// knowledge.
pub const KNOWLEDGE_CHECK_SENTINEL: &'static str =
    "I do not have enough up-to-date information to answer this.";

pub const KNOWLEDGE_PROMPT_HEAD: &'static str =
    "You are an AI assistant named Bumblebee, running on arch linux (just like siri for mac).\n\nAnswer the user ONLY IF you are certain the answer is:\n- Not time-sensitive\n- Not dependent on real-time data\n- Not dependent on events after your training cutoff\n- Not dependent on current news, stock prices, sports results, weather, or recent events\n\nIf you can answer confidently from static knowledge, give the answer.\n\nIf you cannot answer confidently, respond with EXACTLY this sentence and nothing else:\n\n\"";

pub const KNOWLEDGE_PROMPT_QUESTION: &'static str = "\"\n\nUser question:\n";

pub const PROMPT_TAIL: &'static str =
    "\n\nImportant: Never mention knowledge cutoff, training data, or that you are an AI language model.";

pub const COMPOSE_PROMPT_HEAD: &'static str = "User question:\n";

pub const COMPOSE_PROMPT_FACTS: &'static str = "\n\nRetrieved web information:\n";

pub const COMPOSE_PROMPT_RULES: &'static str =
    "\n\nAnswer the question clearly and concisely using ONLY the information above.\nIf the information is insufficient or contradictory, say \"I don\u{2019}t know.\"";

/// Shown when the connectivity probe fails.
pub const OFFLINE_MESSAGE: &'static str = "No internet connection. Cannot fetch web results.";

/// Shown and spoken when any stage fails.
pub const APOLOGY: &'static str = "I couldn\u{2019}t find reliable information.";

/// Spoken when a direct answer fails.
pub const DONT_KNOW: &'static str = "I don\u{2019}t know.";

pub const SOURCE_TAG: &'static str = "\n\n:source: ";

pub const SOURCE_KNOWLEDGE: &'static str = "knowledge";

pub const SOURCE_SEARCH: &'static str = "search";

pub const SEARCH_URL_PREFIX: &'static str = "https://www.google.com/search?q=";

pub const TITLE_URL_SEPARATOR: &'static str = " \u{2014} ";

pub const NO_RESULTS: &'static str = "tavily returned no results";

pub const EMPTY_ANSWER: &'static str = "empty answer";

pub const EMPTY_SUMMARY: &'static str = "empty summary";

/// Outcome of the knowledge check.
pub enum KnownOrUnknown {
    Known(String),
    Unknown,
}

/// One web-search result.
pub struct SearchHit {
    pub title: String,
    pub url: String,
    pub content: String,
}

/// What to show and say at the end of the workflow.
pub struct Presentation {
    /// Text for the answer notification.
    pub display: String,
    /// Text to speak, if any.
    pub speech: Option<String>,
    /// Address that the notification offers to open in a browser, if any.
    pub browser_url: Option<String>,
}

/// The next stage of the workflow.
pub enum SearchStep {
    /// Ask the model this knowledge-check prompt.
    CheckKnowledge(String),
    /// Run a web search for this query.
    WebSearch(String),
    /// Ask the model to compose an answer from this prompt.
    Compose(String),
    /// The workflow is over.
    Present(Presentation),
}

/// Percent-encoding of the UTF-8 bytes of a string, as `urlencoding::encode`
/// gives it.
pub uninterp spec fn url_encoded(s: Seq<char>) -> Seq<char>;

/// Characters that `urlencoding::encode` leaves as they are.
pub open spec fn is_url_safe(c: char) -> bool {
    crate::text::is_alnum_spec(c) || c == '-' || c == '_' || c == '.' || c == '~'
}

/// Relies on `urlencoding::encode`: every byte but ASCII letters, digits and
/// `-`, `_`, `.`, `~` becomes `%` and two hexadecimal digits, so those
/// characters alone come back unchanged and the result holds no others but `%`.
#[verifier::external_body]
fn url_encode(s: &str) -> (r: String)
    ensures
        r@ == url_encoded(s@),
        (forall|i: int| 0 <= i < s@.len() ==> is_url_safe(#[trigger] s@[i])) ==> r@ == s@,
        forall|i: int| 0 <= i < r@.len() ==> is_url_safe(#[trigger] r@[i]) || r@[i] == '%',
{
    urlencoding::encode(s).into_owned()
}

/// The prompt of the knowledge check for `q`.
pub open spec fn knowledge_prompt_spec(q: Seq<char>) -> Seq<char> {
    KNOWLEDGE_PROMPT_HEAD@ + KNOWLEDGE_CHECK_SENTINEL@ + KNOWLEDGE_PROMPT_QUESTION@ + q
        + PROMPT_TAIL@
}

/// The prompt that composes an answer to `q` from `facts` alone.
pub open spec fn compose_prompt_spec(q: Seq<char>, facts: Seq<char>) -> Seq<char> {
    COMPOSE_PROMPT_HEAD@ + q + COMPOSE_PROMPT_FACTS@ + facts + COMPOSE_PROMPT_RULES@
        + PROMPT_TAIL@
}

/// How a knowledge-check reply is read: the sentinel, or nothing, is Unknown;
/// anything else is the answer, trimmed.
pub open spec fn knowledge_outcome(reply: Seq<char>, k: KnownOrUnknown) -> bool {
    let t = trimmed(reply);
    if t == KNOWLEDGE_CHECK_SENTINEL@ || t.len() == 0 {
        k is Unknown
    } else {
        k matches KnownOrUnknown::Known(a) && a@ == t
    }
}

/// `a` and `b` joined by `sep`, leaving out whichever is empty.
pub open spec fn join_nonempty(a: Seq<char>, sep: Seq<char>, b: Seq<char>) -> Seq<char> {
    if b.len() == 0 {
        a
    } else if a.len() == 0 {
        b
    } else {
        a + sep + b
    }
}

/// The text of one result: title, address and content, trimmed, the first two
/// separated by a dash and the content on a line of its own; empty parts are
/// left out.
pub open spec fn chunk_spec(h: SearchHit) -> Seq<char> {
    join_nonempty(
        join_nonempty(trimmed(h.title@), TITLE_URL_SEPARATOR@, trimmed(h.url@)),
        "\n"@,
        trimmed(h.content@),
    )
}

/// The facts block: the non-empty texts of the results, in order, separated
/// by blank lines.
pub open spec fn facts_spec(hits: Seq<SearchHit>) -> Seq<char>
    decreases hits.len(),
{
    if hits.len() == 0 {
        Seq::empty()
    } else {
        join_nonempty(facts_spec(hits.drop_last()), "\n\n"@, chunk_spec(hits.last()))
    }
}

/// The address of a web search for `q`.
pub open spec fn search_url_spec(q: Seq<char>) -> Seq<char> {
    SEARCH_URL_PREFIX@ + url_encoded(q)
}

/// An answer tagged with its source.
pub open spec fn tagged(answer: Seq<char>, source: Seq<char>) -> Seq<char> {
    answer + SOURCE_TAG@ + source
}

/// A presentation that shows `display`, speaks `speech` and offers `url`.
pub open spec fn presents(
    p: Presentation,
    display: Seq<char>,
    speech: Option<Seq<char>>,
    url: Option<Seq<char>>,
) -> bool {
    &&& p.display@ == display
    &&& match speech {
        Some(s) => p.speech matches Some(x) && x@ == s,
        None => p.speech is None,
    }
    &&& match url {
        Some(u) => p.browser_url matches Some(x) && x@ == u,
        None => p.browser_url is None,
    }
}

/// The presentation after a failure at any stage.
pub open spec fn apology_spec(source: Seq<char>, step: SearchStep) -> bool {
    step matches SearchStep::Present(p) && presents(
        p,
        tagged(APOLOGY@, source),
        Some(APOLOGY@),
        None,
    )
}

fn concat(a: &str, b: &str) -> (r: String)
    ensures
        r@ == a@ + b@,
{
    let mut s = a.to_string();
    s.append(b);
    s
}

/// The prompt of the knowledge check for `query`.
pub fn knowledge_prompt(query: &str) -> (r: String)
    ensures
        r@ == knowledge_prompt_spec(query@),
{
    let mut s = concat(KNOWLEDGE_PROMPT_HEAD, KNOWLEDGE_CHECK_SENTINEL);
    s.append(KNOWLEDGE_PROMPT_QUESTION);
    s.append(query);
    s.append(PROMPT_TAIL);
    s
}

/// The prompt that composes an answer to `query` from `facts` alone.
pub fn compose_prompt(query: &str, facts: &str) -> (r: String)
    ensures
        r@ == compose_prompt_spec(query@, facts@),
{
    let mut s = concat(COMPOSE_PROMPT_HEAD, query);
    s.append(COMPOSE_PROMPT_FACTS);
    s.append(facts);
    s.append(COMPOSE_PROMPT_RULES);
    s.append(PROMPT_TAIL);
    s
}

/// Reads the model's reply to the knowledge check.
pub fn classify_knowledge_reply(reply: &str) -> (r: KnownOrUnknown)
    ensures
        knowledge_outcome(reply@, r),
{
    let t = trim(reply);
    if crate::executor::same_text(t.as_str(), KNOWLEDGE_CHECK_SENTINEL) {
        return KnownOrUnknown::Unknown;
    }
    if t.as_str().is_empty() {
        return KnownOrUnknown::Unknown;
    }
    KnownOrUnknown::Known(t)
}

/// Reads the outcome of the knowledge-check call: an error passes through,
/// a reply is read as `classify_knowledge_reply` does.
pub fn answer_with_llm_if_known(reply: Result<String, String>) -> (r: Result<
    KnownOrUnknown,
    String,
>)
    ensures
        match reply {
            Ok(out) => r matches Ok(k) && knowledge_outcome(out@, k),
            Err(e) => r == Err::<KnownOrUnknown, String>(e),
        },
{
    match reply {
        Ok(out) => Ok(classify_knowledge_reply(out.as_str())),
        Err(e) => Err(e),
    }
}

fn join_parts(a: String, sep: &str, b: String) -> (r: String)
    ensures
        r@ == join_nonempty(a@, sep@, b@),
{
    if b.as_str().is_empty() {
        a
    } else if a.as_str().is_empty() {
        b
    } else {
        let mut s = a;
        s.append(sep);
        s.append(b.as_str());
        s
    }
}

/// The text of one result.
pub fn result_chunk(h: &SearchHit) -> (r: String)
    ensures
        r@ == chunk_spec(*h),
{
    let head = join_parts(trim(h.title.as_str()), TITLE_URL_SEPARATOR, trim(h.url.as_str()));
    join_parts(head, "\n", trim(h.content.as_str()))
}

/// Flattens the results into the facts block; fails when it would be empty.
pub fn build_facts(hits: &Vec<SearchHit>) -> (r: Result<String, String>)
    ensures
        facts_spec(hits@).len() == 0 ==> (r matches Err(e) && e@ == NO_RESULTS@),
        facts_spec(hits@).len() > 0 ==> (r matches Ok(f) && f@ == facts_spec(hits@)),
{
    let mut facts = String::new();
    let mut i: usize = 0;
    while i < hits.len()
        invariant
            i <= hits@.len(),
            facts@ == facts_spec(hits@.take(i as int)),
        decreases hits@.len() - i,
    {
        let c = result_chunk(&hits[i]);
        assert(hits@.take(i + 1).drop_last() == hits@.take(i as int));
        facts = join_parts(facts, "\n\n", c);
        i = i + 1;
    }
    assert(hits@.take(hits@.len() as int) == hits@);
    if facts.as_str().is_empty() {
        Err(NO_RESULTS.to_string())
    } else {
        Ok(facts)
    }
}

/// The address of a web search for `query`.
pub fn search_url(query: &str) -> (r: String)
    ensures
        r@ == search_url_spec(query@),
{
    let enc = url_encode(query);
    concat(SEARCH_URL_PREFIX, enc.as_str())
}

fn apology(source: &str) -> (r: SearchStep)
    ensures
        apology_spec(source@, r),
{
    let display = concat(concat(APOLOGY, SOURCE_TAG).as_str(), source);
    SearchStep::Present(
        Presentation { display, speech: Some(APOLOGY.to_string()), browser_url: None },
    )
}

/// First stage: offline, the workflow ends with the offline message and no
/// provider is called; online, the knowledge check comes next.
pub fn after_probe(question: &str, online: bool) -> (r: SearchStep)
    ensures
        !online ==> (r matches SearchStep::Present(p) && presents(p, OFFLINE_MESSAGE@, None, None)),
        online ==> (r matches SearchStep::CheckKnowledge(s) && s@ == knowledge_prompt_spec(
            question@,
        )),
{
    if !online {
        return SearchStep::Present(
            Presentation { display: OFFLINE_MESSAGE.to_string(), speech: None, browser_url: None },
        );
    }
    SearchStep::CheckKnowledge(knowledge_prompt(question))
}

/// Second stage: a known answer is presented as knowledge; an unknown one
/// leads to a web search for the question; a failed call ends in the apology.
pub fn after_knowledge_check(question: &str, reply: Result<String, String>) -> (r: SearchStep)
    ensures
        match reply {
            Ok(out) => {
                let t = trimmed(out@);
                if t == KNOWLEDGE_CHECK_SENTINEL@ || t.len() == 0 {
                    r matches SearchStep::WebSearch(s) && s@ == question@
                } else {
                    r matches SearchStep::Present(p) && presents(
                        p,
                        tagged(t, SOURCE_KNOWLEDGE@),
                        Some(t),
                        None,
                    )
                }
            },
            Err(_) => apology_spec(SOURCE_SEARCH@, r),
        },
{
    match answer_with_llm_if_known(reply) {
        Ok(KnownOrUnknown::Known(ans)) => {
            let display = concat(concat(ans.as_str(), SOURCE_TAG).as_str(), SOURCE_KNOWLEDGE);
            SearchStep::Present(Presentation { display, speech: Some(ans), browser_url: None })
        },
        Ok(KnownOrUnknown::Unknown) => SearchStep::WebSearch(question.to_string()),
        Err(_) => apology(SOURCE_SEARCH),
    }
}

/// Third stage: the results become the facts block, and the compose prompt
/// holds the question and those facts; a failed search, or one with nothing
/// in it, ends in the apology.
pub fn after_search(question: &str, results: Result<Vec<SearchHit>, String>) -> (r: SearchStep)
    ensures
        match results {
            Ok(hits) => if facts_spec(hits@).len() > 0 {
                r matches SearchStep::Compose(s) && s@ == compose_prompt_spec(
                    question@,
                    facts_spec(hits@),
                )
            } else {
                apology_spec(SOURCE_SEARCH@, r)
            },
            Err(_) => apology_spec(SOURCE_SEARCH@, r),
        },
{
    match results {
        Ok(hits) => match build_facts(&hits) {
            Ok(facts) => SearchStep::Compose(compose_prompt(question, facts.as_str())),
            Err(_) => apology(SOURCE_SEARCH),
        },
        Err(_) => apology(SOURCE_SEARCH),
    }
}

/// Last stage: the composed answer is presented as coming from the search,
/// with the search address to open; a failed call ends in the apology.
pub fn after_compose(question: &str, reply: Result<String, String>) -> (r: SearchStep)
    ensures
        match reply {
            Ok(ans) => r matches SearchStep::Present(p) && presents(
                p,
                tagged(ans@, SOURCE_SEARCH@),
                Some(ans@),
                Some(search_url_spec(question@)),
            ),
            Err(_) => apology_spec(SOURCE_SEARCH@, r),
        },
{
    match reply {
        Ok(ans) => {
            let display = concat(concat(ans.as_str(), SOURCE_TAG).as_str(), SOURCE_SEARCH);
            SearchStep::Present(
                Presentation { display, speech: Some(ans), browser_url: Some(search_url(question)) },
            )
        },
        Err(_) => apology(SOURCE_SEARCH),
    }
}

/// Least time, in milliseconds, that an answer notification stays up.
pub const MIN_ANSWER_TIMEOUT_MS: u64 = 15_000;

/// How long an answer notification stays up: the configured time, but never
/// less than `MIN_ANSWER_TIMEOUT_MS`.
pub fn answer_timeout_ms(ui_timeout_ms: u64) -> (r: u64)
    ensures
        r == if ui_timeout_ms >= MIN_ANSWER_TIMEOUT_MS {
            ui_timeout_ms
        } else {
            MIN_ANSWER_TIMEOUT_MS
        },
{
    if ui_timeout_ms >= MIN_ANSWER_TIMEOUT_MS {
        ui_timeout_ms
    } else {
        MIN_ANSWER_TIMEOUT_MS
    }
}

/// A model's answer: trimmed, and an error when nothing is left.
pub fn finish_answer(content: &str) -> (r: Result<String, String>)
    ensures
        trimmed(content@).len() == 0 ==> (r matches Err(e) && e@ == EMPTY_ANSWER@),
        trimmed(content@).len() > 0 ==> (r matches Ok(a) && a@ == trimmed(content@)),
{
    let t = trim(content);
    if t.as_str().is_empty() {
        Err(EMPTY_ANSWER.to_string())
    } else {
        Ok(t)
    }
}

/// A model's summary: kept as it is, and an error when it is empty.
pub fn finish_summary(content: String) -> (r: Result<String, String>)
    ensures
        content@.len() == 0 ==> (r matches Err(e) && e@ == EMPTY_SUMMARY@),
        content@.len() > 0 ==> r == Ok::<String, String>(content),
{
    if content.as_str().is_empty() {
        Err(EMPTY_SUMMARY.to_string())
    } else {
        Ok(content)
    }
}

/// The text of a direct answer, with search disabled: the model's answer, or
/// "I don't know." when the call failed.
pub fn direct_answer_text(reply: Result<String, String>) -> (r: String)
    ensures
        match reply {
            Ok(a) => r@ == a@,
            Err(_) => r@ == DONT_KNOW@,
        },
{
    match reply {
        Ok(a) => a,
        Err(_) => DONT_KNOW.to_string(),
    }
}

} // verus!
