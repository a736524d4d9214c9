use btwd::search::{
    after_compose, after_knowledge_check, answer_timeout_ms, after_probe, after_search, answer_with_llm_if_known,
    build_facts, classify_knowledge_reply, finish_summary, compose_prompt, direct_answer_text, finish_answer,
    knowledge_prompt, search_url, KnownOrUnknown, SearchHit, SearchStep,
    KNOWLEDGE_CHECK_SENTINEL, OFFLINE_MESSAGE,
};

fn hit(title: &str, url: &str, content: &str) -> SearchHit {
    SearchHit { title: title.to_string(), url: url.to_string(), content: content.to_string() }
}

#[test]
fn knowledge_check_exact_sentinel_triggers_unknown() {
    let prompt = knowledge_prompt("who won f1 2025");
    assert!(prompt.contains("who won f1 2025"));
    let res = answer_with_llm_if_known(Ok(KNOWLEDGE_CHECK_SENTINEL.to_string())).unwrap();
    assert!(matches!(res, KnownOrUnknown::Unknown));
}

#[test]
fn knowledge_check_vague_disclaimer_is_treated_as_known_not_unknown() {
    let prompt = knowledge_prompt("today's weather");
    assert!(prompt.contains("today's weather"));
    let res = answer_with_llm_if_known(Ok("I don't have real-time data".to_string())).unwrap();
    assert!(matches!(res, KnownOrUnknown::Known(_)));
}

#[test]
fn knowledge_reply_reading() {
    let padded = format!("  {}\n", KNOWLEDGE_CHECK_SENTINEL);
    assert!(matches!(classify_knowledge_reply(&padded), KnownOrUnknown::Unknown));
    assert!(matches!(classify_knowledge_reply("   "), KnownOrUnknown::Unknown));
    assert!(matches!(classify_knowledge_reply(""), KnownOrUnknown::Unknown));
    assert!(matches!(classify_knowledge_reply(" Paris. \n"), KnownOrUnknown::Known(a) if a == "Paris."));
    // a near miss of the sentinel is an answer
    let near = KNOWLEDGE_CHECK_SENTINEL.trim_end_matches('.');
    assert!(matches!(classify_knowledge_reply(near), KnownOrUnknown::Known(a) if a == near));
    assert!(matches!(answer_with_llm_if_known(Err("boom".to_string())), Err(e) if e == "boom"));
}

#[test]
fn knowledge_prompt_text() {
    let p = knowledge_prompt("why is the sky blue");
    assert!(p.starts_with("You are an AI assistant named Bumblebee"));
    assert!(p.contains(&format!("\"{}\"\n\nUser question:\nwhy is the sky blue\n\nImportant:", KNOWLEDGE_CHECK_SENTINEL)));
}

#[test]
fn scenario_offline_question_gets_fixed_message() {
    match after_probe("who won the race yesterday", false) {
        SearchStep::Present(p) => {
            assert_eq!(p.display, OFFLINE_MESSAGE);
            assert!(p.speech.is_none());
            assert!(p.browser_url.is_none());
        }
        _ => panic!("offline must end the workflow"),
    }
    match after_probe("who won the race yesterday", true) {
        SearchStep::CheckKnowledge(p) => assert_eq!(p, knowledge_prompt("who won the race yesterday")),
        _ => panic!("online must ask the knowledge check"),
    }
}

#[test]
fn scenario_sentinel_leads_to_search_and_facts_only_compose() {
    let q = "who won the race yesterday";
    let step = after_knowledge_check(q, Ok(KNOWLEDGE_CHECK_SENTINEL.to_string()));
    assert!(matches!(&step, SearchStep::WebSearch(s) if s == q));
    let hits = vec![
        hit(" Race report ", "https://a.example/r", " Driver A won. "),
        hit("", "", "   "),
        hit("Standings", "", "Driver A leads."),
    ];
    let facts = "Race report \u{2014} https://a.example/r\nDriver A won.\n\nStandings\nDriver A leads.";
    match after_search(q, Ok(hits)) {
        SearchStep::Compose(p) => {
            assert_eq!(p, compose_prompt(q, facts));
            assert_ne!(p, knowledge_prompt(q));
            assert!(p.contains("Retrieved web information:\nRace report"));
        }
        _ => panic!("expected the compose step"),
    }
}

#[test]
fn known_answer_is_presented_as_knowledge() {
    match after_knowledge_check("capital of france", Ok(" Paris ".to_string())) {
        SearchStep::Present(p) => {
            assert_eq!(p.display, "Paris\n\n:source: knowledge");
            assert_eq!(p.speech.as_deref(), Some("Paris"));
            assert!(p.browser_url.is_none());
        }
        _ => panic!(),
    }
}

#[test]
fn failures_end_in_apology() {
    let apology = "I couldn\u{2019}t find reliable information.";
    for step in [
        after_knowledge_check("q", Err("x".to_string())),
        after_search("q", Err("x".to_string())),
        after_search("q", Ok(vec![hit(" ", "", "")])),
        after_compose("q", Err("x".to_string())),
    ] {
        match step {
            SearchStep::Present(p) => {
                assert_eq!(p.display, format!("{}\n\n:source: search", apology));
                assert_eq!(p.speech.as_deref(), Some(apology));
                assert!(p.browser_url.is_none());
            }
            _ => panic!("expected the apology"),
        }
    }
}

#[test]
fn composed_answer_offers_search_in_browser() {
    match after_compose("who won?", Ok("Driver A.".to_string())) {
        SearchStep::Present(p) => {
            assert_eq!(p.display, "Driver A.\n\n:source: search");
            assert_eq!(p.speech.as_deref(), Some("Driver A."));
            assert_eq!(p.browser_url.as_deref(), Some("https://www.google.com/search?q=who%20won%3F"));
        }
        _ => panic!(),
    }
}

#[test]
fn search_url_encodes_query() {
    assert_eq!(search_url("a b&c"), "https://www.google.com/search?q=a%20b%26c");
    assert_eq!(search_url("safe-_.~09"), "https://www.google.com/search?q=safe-_.~09");
}

#[test]
fn facts_block_layout() {
    assert_eq!(
        build_facts(&vec![hit("T", "U", "C"), hit("", "U2", ""), hit("", "", "C3")]).unwrap(),
        "T \u{2014} U\nC\n\nU2\n\nC3"
    );
    assert_eq!(build_facts(&vec![]).unwrap_err(), "tavily returned no results");
    assert!(build_facts(&vec![hit(" ", "\n", "\t")]).is_err());
}

#[test]
fn answers_are_trimmed_and_empty_is_error() {
    assert_eq!(finish_answer("  hi \n").unwrap(), "hi");
    assert_eq!(finish_answer(" \n ").unwrap_err(), "empty answer");
    assert_eq!(direct_answer_text(Ok("Yes.".to_string())), "Yes.");
    assert_eq!(direct_answer_text(Err("down".to_string())), "I don\u{2019}t know.");
}

#[test]
fn answer_notifications_stay_at_least_fifteen_seconds() {
    assert_eq!(answer_timeout_ms(5_000), 15_000);
    assert_eq!(answer_timeout_ms(15_000), 15_000);
    assert_eq!(answer_timeout_ms(20_000), 20_000);
}

#[test]
fn summaries_are_kept_and_empty_is_error() {
    assert_eq!(finish_summary(" A. ".to_string()).unwrap(), " A. ");
    assert_eq!(finish_summary(String::new()).unwrap_err(), "empty summary");
}
