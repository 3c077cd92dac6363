use lookup_bot::command::PollutantSelector;
use lookup_bot::air_lookup::{air_start, air_step, AirAction, AirEvent, AirStage};
use lookup_bot::dispatch::{
    degrade, dictionary_reply, finish_reply, on_chat_line, placeholder_reply, process_privmsg,
    Dispatch, Failure, Outcome,
};
use lookup_bot::knowledge::{
    chain_start, chain_step, next_chain, Chain, ChainAction, ChainEvent, ChainStage, Worker,
};
use lookup_bot::sending::{send_start, send_step, SendState};
use lookup_bot::membership::{channels_after_join, concerns_bot, process_invite, process_kick};
use lookup_bot::queue::{Job, JobQueue, QueueFull, REFERENCE_CAPACITY};
use lookup_bot::reply::{AirStatus, DictionaryResult, Grade, KnowledgeAnswer, PollutantReading};

fn strings(items: &[&str]) -> Vec<String> {
    items.iter().map(|s| s.to_string()).collect()
}

fn job(target: &str, query: &str) -> Job {
    Job { reply_target: target.to_string(), query_text: query.to_string() }
}

fn replied(lines: &[&str]) -> Dispatch {
    Dispatch::Finished { outcome: Outcome::Replied { lines: strings(lines) } }
}

fn seoul() -> AirStatus {
    AirStatus {
        station_address: "Seoul Station".to_string(),
        pollutants: vec![PollutantReading {
            code: "pm10".to_string(),
            name: "PM10".to_string(),
            unit: "㎍/m³".to_string(),
            samples: vec![Some("15".to_string()), None, Some("12".to_string())],
            grade: Grade::Good,
        }],
    }
}

#[test]
fn the_queue_is_first_in_first_out() {
    let mut q = JobQueue::new(3);
    assert!(q.is_empty());
    assert_eq!(q.capacity(), 3);
    assert_eq!(q.enqueue(job("#a", "one")), Ok(()));
    assert_eq!(q.enqueue(job("#b", "two")), Ok(()));
    assert_eq!(q.len(), 2);
    assert!(!q.is_full());
    assert_eq!(q.dequeue(), Some(job("#a", "one")));
    assert_eq!(q.dequeue(), Some(job("#b", "two")));
    assert_eq!(q.dequeue(), None);
    assert!(q.is_empty());
}

#[test]
fn the_sixth_job_is_rejected_at_once() {
    let mut q = JobQueue::with_reference_capacity();
    assert_eq!(REFERENCE_CAPACITY, 5);
    assert_eq!(q.capacity(), 5);
    for i in 0..5 {
        assert_eq!(q.enqueue(job("#a", &format!("q{}", i))), Ok(()));
    }
    assert!(q.is_full());
    assert_eq!(q.enqueue(job("#a", "q5")), Err(QueueFull { job: job("#a", "q5") }));
    assert_eq!(q.len(), 5);
    assert_eq!(q.dequeue(), Some(job("#a", "q0")));
    assert_eq!(q.enqueue(job("#a", "q6")), Ok(()));
    assert!(q.is_full());
}

#[test]
fn a_queue_without_room_rejects_everything() {
    let mut q = JobQueue::new(0);
    assert!(q.is_full());
    assert!(q.is_empty());
    assert_eq!(q.enqueue(job("#a", "x")), Err(QueueFull { job: job("#a", "x") }));
    assert_eq!(q.dequeue(), None);
}

#[test]
fn a_message_that_is_no_command_ends_in_silence() {
    let mut q = JobQueue::with_reference_capacity();
    let silent = Dispatch::Finished { outcome: Outcome::Silent };
    assert_eq!(on_chat_line("#a", "good morning", &mut q), silent);
    assert_eq!(on_chat_line("#a", "", &mut q), silent);
    assert_eq!(on_chat_line("#a", "wolfram", &mut q), silent);
    assert_eq!(on_chat_line("#a", "<nick> dic hello", &mut q), silent);
    assert!(q.is_empty());
}

#[test]
fn dictionary_and_air_commands_ask_for_their_lookup() {
    let mut q = JobQueue::with_reference_capacity();
    assert_eq!(
        on_chat_line("#a", "dic hello", &mut q),
        Dispatch::LookupDictionary { term: "hello".to_string() }
    );
    assert_eq!(
        on_chat_line("#a", "pm10 Seoul", &mut q),
        Dispatch::LookupAirQuality {
            pollutant_selector: PollutantSelector::SingleCode { code: "pm10".to_string() },
            location_query: "Seoul".to_string(),
        }
    );
    assert!(q.is_empty());
}

#[test]
fn scenario_dictionary_entry() {
    let mut q = JobQueue::with_reference_capacity();
    let step = on_chat_line("#a", "dic hello", &mut q);
    assert_eq!(step, Dispatch::LookupDictionary { term: "hello".to_string() });
    let found = DictionaryResult { alternatives: Vec::new(), entries: strings(&["hello: 안녕"]) };
    assert_eq!(dictionary_reply(Some(found)), strings(&["hello: 안녕"]));
}

#[test]
fn a_dictionary_search_without_result_shows_the_placeholder() {
    assert_eq!(dictionary_reply(None), strings(&["._."]));
    let empty = DictionaryResult { alternatives: Vec::new(), entries: strings(&[""]) };
    assert_eq!(dictionary_reply(Some(empty)), strings(&["._."]));
}

#[test]
fn finish_reply_fills_an_empty_reply() {
    assert_eq!(placeholder_reply(), strings(&["._."]));
    assert_eq!(finish_reply(Vec::new()), strings(&["._."]));
    assert_eq!(finish_reply(strings(&["a", "b"])), strings(&["a", "b"]));
    assert_eq!(finish_reply(strings(&[""])), strings(&[""]));
}

#[test]
fn scenario_air_quality_by_code() {
    let mut q = JobQueue::with_reference_capacity();
    let selector = match on_chat_line("#a", "pm10 Seoul", &mut q) {
        Dispatch::LookupAirQuality { pollutant_selector, location_query } => {
            assert_eq!(location_query, "Seoul");
            pollutant_selector
        }
        other => panic!("unexpected step {:?}", other),
    };
    let (stage, action) = air_start();
    assert_eq!(stage, AirStage::GeocodingAddress);
    assert_eq!(action, AirAction::GeocodeByAddress);
    let (stage, action) = air_step(stage, &selector, AirEvent::Geocoded { found: 1 });
    assert_eq!(stage, AirStage::FetchingAir);
    assert_eq!(action, AirAction::FetchAir);
    let (stage, action) = air_step(stage, &selector, AirEvent::AirFetched { status: seoul() });
    assert_eq!(stage, AirStage::Finished);
    assert_eq!(
        action,
        AirAction::Reply {
            lines: strings(&["station: Seoul Station", "PM10 (㎍/m³): 15 →  → 12 (좋음)"])
        }
    );
    let (stage, action) = air_step(stage, &selector, AirEvent::AirFailed);
    assert_eq!(stage, AirStage::Finished);
    assert_eq!(action, AirAction::Nothing);
}

#[test]
fn keyword_geocoding_is_the_fallback_for_an_empty_address_lookup() {
    let all = PollutantSelector::All;
    let (stage, action) = air_step(AirStage::GeocodingAddress, &all, AirEvent::Geocoded { found: 0 });
    assert_eq!(stage, AirStage::GeocodingKeyword);
    assert_eq!(action, AirAction::GeocodeByKeyword);
    let (stage, action) = air_step(stage, &all, AirEvent::Geocoded { found: 3 });
    assert_eq!(stage, AirStage::FetchingAir);
    assert_eq!(action, AirAction::FetchAir);
}

#[test]
fn a_failed_air_lookup_shows_the_placeholder() {
    let all = PollutantSelector::All;
    let failed = (AirStage::Finished, AirAction::Reply { lines: strings(&["._."]) });
    assert_eq!(air_step(AirStage::GeocodingAddress, &all, AirEvent::GeocodeFailed), failed);
    assert_eq!(air_step(AirStage::GeocodingKeyword, &all, AirEvent::Geocoded { found: 0 }), failed);
    assert_eq!(air_step(AirStage::GeocodingKeyword, &all, AirEvent::GeocodeFailed), failed);
    assert_eq!(air_step(AirStage::FetchingAir, &all, AirEvent::AirFailed), failed);
    assert_eq!(air_step(AirStage::FetchingAir, &all, AirEvent::Geocoded { found: 1 }), failed);
    assert_eq!(
        air_step(AirStage::GeocodingAddress, &all, AirEvent::AirFetched { status: seoul() }),
        failed
    );
}

#[test]
fn scenario_knowledge_query_is_acknowledged_and_answered() {
    let mut q = JobQueue::with_reference_capacity();
    let step = on_chat_line("#physics", "w speed of light", &mut q);
    assert_eq!(step, replied(&["Wolfram|Alpha 검색 중..."]));
    assert_eq!(q.len(), 1);

    let chain = next_chain(&mut q).unwrap();
    assert!(q.is_empty());
    assert_eq!(chain, chain_start(job("#physics", "speed of light")));
    assert_eq!(chain.stage, ChainStage::Fetching);

    let (chain, action) = chain_step(chain, ChainEvent::Diagram { bytes: Some(b"Man".to_vec()) });
    assert_eq!(action, ChainAction::Idle);
    assert_eq!(chain.stage, ChainStage::Fetching);
    let (chain, action) =
        chain_step(chain, ChainEvent::ShortAnswer { text: Some("299792458 m/s".to_string()) });
    assert_eq!(
        action,
        ChainAction::Upload { payload: "TWFu".to_string(), title: "speed of light".to_string() }
    );
    assert_eq!(chain.stage, ChainStage::Uploading);
    let (chain, action) =
        chain_step(chain, ChainEvent::Uploaded { url: Some("https://i.example/x.png".to_string()) });
    assert_eq!(
        action,
        ChainAction::Send {
            target: "#physics".to_string(),
            lines: strings(&["speed of light ⇒ 299792458 m/s https://i.example/x.png"]),
        }
    );
    assert_eq!(chain.stage, ChainStage::Finished);
    assert_eq!(
        chain.answer,
        KnowledgeAnswer {
            short_answer: Some("299792458 m/s".to_string()),
            diagram: Some(b"Man".to_vec()),
            url: Some("https://i.example/x.png".to_string()),
        }
    );
    let (chain, action) = chain_step(chain, ChainEvent::Uploaded { url: Some("again".to_string()) });
    assert_eq!(action, ChainAction::Idle);
    assert_eq!(chain.stage, ChainStage::Finished);
}

#[test]
fn scenario_knowledge_query_with_a_failed_upload_sends_nothing_more() {
    let chain = chain_start(job("#physics", "speed of light"));
    let (chain, action) = chain_step(chain, ChainEvent::ShortAnswer { text: Some("c".to_string()) });
    assert_eq!(action, ChainAction::Idle);
    let (chain, action) = chain_step(chain, ChainEvent::Diagram { bytes: Some(vec![255]) });
    assert_eq!(
        action,
        ChainAction::Upload { payload: "/w==".to_string(), title: "speed of light".to_string() }
    );
    let (chain, action) = chain_step(chain, ChainEvent::Uploaded { url: None });
    assert_eq!(action, ChainAction::GiveUp);
    assert_eq!(chain.stage, ChainStage::Finished);
    let (_, action) = chain_step(chain, ChainEvent::Uploaded { url: Some("late".to_string()) });
    assert_eq!(action, ChainAction::Idle);
}

#[test]
fn a_failed_fetch_ends_the_chain_in_silence() {
    let chain = chain_start(job("#a", "q"));
    let (chain, action) = chain_step(chain, ChainEvent::ShortAnswer { text: None });
    assert_eq!(action, ChainAction::GiveUp);
    assert_eq!(chain.stage, ChainStage::Finished);
    let (_, action) = chain_step(chain, ChainEvent::Diagram { bytes: Some(vec![1]) });
    assert_eq!(action, ChainAction::Idle);

    let chain = chain_start(job("#a", "q"));
    let (chain, _) = chain_step(chain, ChainEvent::ShortAnswer { text: Some("a".to_string()) });
    let (chain, action) = chain_step(chain, ChainEvent::Diagram { bytes: None });
    assert_eq!(action, ChainAction::GiveUp);
    assert_eq!(chain.stage, ChainStage::Finished);
}

#[test]
fn an_upload_report_out_of_turn_changes_nothing() {
    let chain = chain_start(job("#a", "q"));
    let before = chain.clone();
    let (chain, action) = chain_step(chain, ChainEvent::Uploaded { url: Some("u".to_string()) });
    assert_eq!(action, ChainAction::Idle);
    assert_eq!(chain, before);
    let uploading = Chain {
        job: job("#a", "q"),
        answer: KnowledgeAnswer {
            short_answer: Some("a".to_string()),
            diagram: Some(vec![1]),
            url: None,
        },
        stage: ChainStage::Uploading,
    };
    let (chain, action) =
        chain_step(uploading.clone(), ChainEvent::ShortAnswer { text: Some("b".to_string()) });
    assert_eq!(action, ChainAction::Idle);
    assert_eq!(chain, uploading);
}

#[test]
fn a_full_queue_answers_with_the_placeholder() {
    let mut q = JobQueue::with_reference_capacity();
    for _ in 0..5 {
        assert_eq!(on_chat_line("#a", "w 2+2", &mut q), replied(&["Wolfram|Alpha 검색 중..."]));
    }
    assert_eq!(q.len(), 5);
    assert_eq!(on_chat_line("#a", "w 3+3", &mut q), replied(&["._."]));
    assert_eq!(q.len(), 5);
    assert_eq!(q.dequeue(), Some(job("#a", "2+2")));
}

#[test]
fn next_chain_on_an_empty_queue_is_nothing() {
    let mut q = JobQueue::new(2);
    assert_eq!(next_chain(&mut q), None);
}

#[test]
fn process_privmsg_reads_past_the_bridge_prefix() {
    let mut q = JobQueue::with_reference_capacity();
    assert_eq!(
        process_privmsg("#a", "<nick> dic hello", &mut q),
        Dispatch::LookupDictionary { term: "hello".to_string() }
    );
    assert_eq!(
        process_privmsg("#a", "d hello", &mut q),
        Dispatch::LookupDictionary { term: "hello".to_string() }
    );
    assert_eq!(
        process_privmsg("#a", "<nick> hello", &mut q),
        Dispatch::Finished { outcome: Outcome::Silent }
    );
    assert_eq!(process_privmsg("#b", "<n> W 1+1", &mut q), replied(&["Wolfram|Alpha 검색 중..."]));
    assert_eq!(q.dequeue(), Some(job("#b", "1+1")));
}

#[test]
fn lines_are_sent_in_order() {
    let s = send_start(3);
    assert_eq!(s, SendState::Sending { next: 0 });
    let s = send_step(3, s, true);
    assert_eq!(s, SendState::Sending { next: 1 });
    let s = send_step(3, s, true);
    assert_eq!(s, SendState::Sending { next: 2 });
    let s = send_step(3, s, true);
    assert_eq!(s, SendState::Completed);
    assert_eq!(send_step(3, s, true), SendState::Completed);
    assert_eq!(send_start(0), SendState::Completed);
}

#[test]
fn a_line_that_cannot_be_sent_stops_the_reply() {
    let s = send_step(3, send_start(3), true);
    let s = send_step(3, s, false);
    assert_eq!(s, SendState::Aborted { sent: 1 });
    assert_eq!(send_step(3, s, true), SendState::Aborted { sent: 1 });
    assert_eq!(send_step(3, s, false), SendState::Aborted { sent: 1 });
    assert_eq!(send_step(1, send_start(1), false), SendState::Aborted { sent: 0 });
}

#[test]
fn failures_degrade_by_their_kind_and_place() {
    let placeholder = Outcome::Replied { lines: strings(&["._."]) };
    assert_eq!(degrade(Failure::NoMatch, false), Outcome::Silent);
    assert_eq!(degrade(Failure::NoMatch, true), Outcome::Silent);
    assert_eq!(degrade(Failure::ProviderError, false), placeholder);
    assert_eq!(degrade(Failure::ProviderError, true), Outcome::Silent);
    assert_eq!(degrade(Failure::EmptyResult, false), placeholder);
    assert_eq!(degrade(Failure::EmptyResult, true), Outcome::Silent);
    assert_eq!(degrade(Failure::QueueFull, false), placeholder);
    assert_eq!(degrade(Failure::QueueFull, true), placeholder);
    assert_eq!(degrade(Failure::TransportError, false), Outcome::Silent);
    assert_eq!(degrade(Failure::TransportError, true), Outcome::Silent);
}

#[test]
fn an_invitation_of_the_bot_is_followed() {
    assert_eq!(process_invite("bot", "#rust", "bot"), Some("#rust".to_string()));
    assert_eq!(process_invite("bot", "#rust", "someone"), None);
    assert_eq!(process_invite("bot", "#rust", "Bot"), None);
    assert_eq!(channels_after_join(strings(&["#a"]), "#rust"), strings(&["#a", "#rust"]));
    assert_eq!(channels_after_join(Vec::new(), "#rust"), strings(&["#rust"]));
}

#[test]
fn a_kick_of_the_bot_drops_the_channel() {
    let channels = strings(&["#a", "#rust", "#b", "#rust"]);
    assert_eq!(process_kick("bot", "#rust", "bot", &channels), Some(strings(&["#a", "#b"])));
    assert_eq!(process_kick("bot", "#none", "bot", &channels), Some(channels.clone()));
    assert_eq!(process_kick("bot", "#rust", "someone", &channels), None);
}

#[test]
fn nicknames_are_compared_exactly() {
    assert!(concerns_bot("bot", "bot"));
    assert!(!concerns_bot("bot", "bot_"));
    assert!(!concerns_bot("bot", "BOT"));
    assert!(!concerns_bot("bot", ""));
}

#[test]
fn a_queue_stays_well_formed() {
    let mut q = JobQueue::new(1);
    assert!(q.is_well_formed());
    assert_eq!(q.enqueue(job("#a", "x")), Ok(()));
    assert!(q.enqueue(job("#a", "y")).is_err());
    assert!(q.is_well_formed());
    assert!(JobQueue::new(0).is_well_formed());
}

#[test]
fn the_worker_takes_one_job_at_a_time() {
    let mut q = JobQueue::with_reference_capacity();
    assert_eq!(q.enqueue(job("#a", "first")), Ok(()));
    assert_eq!(q.enqueue(job("#b", "second")), Ok(()));
    let mut worker = Worker::new();
    assert!(!worker.is_busy());
    assert_eq!(worker.begin(&mut q), Some("first".to_string()));
    assert!(worker.is_busy());
    assert_eq!(q.len(), 1);
    assert_eq!(worker.begin(&mut q), None);
    assert_eq!(q.len(), 1);

    assert_eq!(
        worker.advance(ChainEvent::ShortAnswer { text: Some("1".to_string()) }),
        ChainAction::Idle
    );
    assert_eq!(
        worker.advance(ChainEvent::Diagram { bytes: Some(b"Ma".to_vec()) }),
        ChainAction::Upload { payload: "TWE=".to_string(), title: "first".to_string() }
    );
    assert_eq!(worker.begin(&mut q), None);
    assert_eq!(
        worker.advance(ChainEvent::Uploaded { url: Some("u".to_string()) }),
        ChainAction::Send { target: "#a".to_string(), lines: strings(&["first ⇒ 1 u"]) }
    );
    assert!(!worker.is_busy());

    assert_eq!(worker.begin(&mut q), Some("second".to_string()));
    assert!(q.is_empty());
    assert_eq!(worker.advance(ChainEvent::Diagram { bytes: None }), ChainAction::GiveUp);
    assert!(!worker.is_busy());
    assert_eq!(worker.begin(&mut q), None);
}

#[test]
fn a_worker_without_a_chain_does_nothing() {
    let mut worker = Worker::new();
    assert_eq!(worker.advance(ChainEvent::Uploaded { url: None }), ChainAction::Idle);
    assert!(!worker.is_busy());
    let mut q = JobQueue::new(2);
    assert_eq!(worker.begin(&mut q), None);
}
