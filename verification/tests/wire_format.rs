use elevenlabs_ttm::{
    ElevenLabsTTMClient, MusicPlan, TTMCompositionPlan, TTMCompositionPlanSection, TTMPromptPlan,
};

fn body_string(plan: MusicPlan) -> String {
    let client = ElevenLabsTTMClient::with_base_url("key", "http://example.invalid/v1");
    let prepared = client.compose_music(plan).prepare();
    String::from_utf8(prepared.body).unwrap()
}

#[test]
fn prompt_body_without_duration() {
    let plan = MusicPlan::Prompt(TTMPromptPlan::new("test".to_string()));
    assert_eq!(body_string(plan), "{\"prompt\":\"test\"}");
}

#[test]
fn prompt_body_with_clamped_duration() {
    let plan = MusicPlan::Prompt(TTMPromptPlan::new("test".to_string()).music_length_ms(5000));
    assert_eq!(
        body_string(plan),
        "{\"prompt\":\"test\",\"music_length_ms\":10000}"
    );
}

#[test]
fn prompt_clamp_low_high_and_in_range() {
    let p = TTMPromptPlan::new("x".to_string()).music_length_ms(5000);
    assert_eq!(p.music_length_ms, Some(10000));
    let p = TTMPromptPlan::new("x".to_string()).music_length_ms(400000);
    assert_eq!(p.music_length_ms, Some(300000));
    let p = TTMPromptPlan::new("x".to_string()).music_length_ms(150000);
    assert_eq!(p.music_length_ms, Some(150000));
    let p = TTMPromptPlan::new("x".to_string()).music_length_ms(10000);
    assert_eq!(p.music_length_ms, Some(10000));
    let p = TTMPromptPlan::new("x".to_string()).music_length_ms(300000);
    assert_eq!(p.music_length_ms, Some(300000));
}

#[test]
fn prompt_clamp_is_idempotent() {
    let once = TTMPromptPlan::new("x".to_string()).music_length_ms(5000);
    let stored = once.music_length_ms.unwrap();
    let twice = once.music_length_ms(stored);
    assert_eq!(twice.music_length_ms, Some(stored));
}

#[test]
fn prompt_body_escapes_specials() {
    let plan = MusicPlan::Prompt(TTMPromptPlan::new("a\"b\\c\nd\te\u{1}f".to_string()));
    assert_eq!(
        body_string(plan),
        "{\"prompt\":\"a\\\"b\\\\c\\nd\\te\\u0001f\"}"
    );
}

#[test]
fn prompt_body_parses_back() {
    let prompt = "dancehall \"riddim\" — heavy\nkicks \\ bright\u{1} plucks";
    let plan = MusicPlan::Prompt(TTMPromptPlan::new(prompt.to_string()).music_length_ms(20000));
    let body = body_string(plan);
    let value: serde_json::Value = serde_json::from_str(&body).unwrap();
    assert_eq!(value["prompt"].as_str().unwrap(), prompt);
    assert_eq!(value["music_length_ms"].as_u64().unwrap(), 20000);

    let plan = MusicPlan::Prompt(TTMPromptPlan::new(prompt.to_string()));
    let body = body_string(plan);
    let value: serde_json::Value = serde_json::from_str(&body).unwrap();
    assert_eq!(value["prompt"].as_str().unwrap(), prompt);
    assert!(value.get("music_length_ms").is_none());
}

#[test]
fn composition_section_below_documented_floor_is_not_rejected() {
    // The provider documents a 3000 ms floor for section durations; the
    // client knowingly passes shorter ones through unchanged.
    let section = TTMCompositionPlanSection::new(
        "intro".to_string(),
        vec![],
        vec![],
        2000,
        vec!["la la".to_string()],
    );
    let plan = MusicPlan::Composition(TTMCompositionPlan::new(
        vec!["pop".to_string()],
        vec![],
        vec![section],
    ));
    assert_eq!(
        body_string(plan),
        "{\"composition_plan\":{\"positive_global_styles\":[\"pop\"],\
         \"negative_global_styles\":[],\"sections\":[{\"section_name\":\"intro\",\
         \"positive_local_styles\":[],\"negative_local_styles\":[],\
         \"duration_ms\":2000,\"lines\":[\"la la\"]}]}}"
    );
}

#[test]
fn composition_top_level_key_and_section_order() {
    let a = TTMCompositionPlanSection::new(
        "verse".to_string(),
        vec!["warm".to_string(), "lush".to_string()],
        vec!["harsh".to_string()],
        30000,
        vec!["line one".to_string(), "line two".to_string()],
    );
    let b = TTMCompositionPlanSection::new("chorus".to_string(), vec![], vec![], 15000, vec![]);
    let plan = MusicPlan::Composition(TTMCompositionPlan::new(
        vec!["electronic".to_string()],
        vec!["acoustic".to_string()],
        vec![a, b],
    ));
    let body = body_string(plan);
    let value: serde_json::Value = serde_json::from_str(&body).unwrap();
    let top = value.as_object().unwrap();
    assert_eq!(top.len(), 1);
    assert!(top.contains_key("composition_plan"));
    let sections = value["composition_plan"]["sections"].as_array().unwrap();
    assert_eq!(sections.len(), 2);
    assert_eq!(sections[0]["section_name"].as_str().unwrap(), "verse");
    assert_eq!(sections[1]["section_name"].as_str().unwrap(), "chorus");
    assert_eq!(sections[0]["duration_ms"].as_u64().unwrap(), 30000);
    assert_eq!(
        sections[0]["positive_local_styles"][1].as_str().unwrap(),
        "lush"
    );
}

#[test]
fn prepare_builds_url_with_default_format() {
    let client = ElevenLabsTTMClient::with_base_url("key", "http://example.invalid/v1");
    let plan = MusicPlan::Prompt(TTMPromptPlan::new("test".to_string()));
    let prepared = client.compose_music(plan).prepare();
    assert_eq!(
        prepared.url,
        "http://example.invalid/v1/music?output_format=mp3_44100_128"
    );
    assert_eq!(prepared.api_key, "key");
}

#[test]
fn prepare_builds_url_with_chosen_format() {
    let client = ElevenLabsTTMClient::new("secret");
    let plan = MusicPlan::Prompt(TTMPromptPlan::new("test".to_string()));
    let prepared = client
        .compose_music(plan)
        .output_format("pcm_16000")
        .model("music_v1")
        .prepare();
    assert_eq!(
        prepared.url,
        "https://api.elevenlabs.io/v1/music?output_format=pcm_16000"
    );
    assert_eq!(prepared.api_key, "secret");
    // Neither the format nor the model appears in the body.
    assert_eq!(
        String::from_utf8(prepared.body).unwrap(),
        "{\"prompt\":\"test\"}"
    );
}
