use gpt_client::config::{clamp_i32, GptConfig};

#[test]
fn temperature_is_clamped_high_and_low() {
    let high = GptConfig::builder().temperature(5000).build();
    assert_eq!(high.temperature, 2000);
    let low = GptConfig::builder().temperature(-1000).build();
    assert_eq!(low.temperature, 0);
    let inside = GptConfig::builder().temperature(800).build();
    assert_eq!(inside.temperature, 800);
}

#[test]
fn every_field_is_clamped() {
    let c = GptConfig::builder()
        .top_p(1500)
        .frequency_penalty(-9000)
        .presence_penalty(i32::MAX)
        .max_tokens(0)
        .build();
    assert_eq!(c.top_p, 1000);
    assert_eq!(c.frequency_penalty, -2000);
    assert_eq!(c.presence_penalty, 2000);
    assert_eq!(c.max_tokens, 1);
    let d = GptConfig::builder().top_p(-5).frequency_penalty(2500).presence_penalty(i32::MIN).build();
    assert_eq!(d.top_p, 0);
    assert_eq!(d.frequency_penalty, 2000);
    assert_eq!(d.presence_penalty, -2000);
}

#[test]
fn unset_fields_take_defaults() {
    let c = GptConfig::builder().build();
    assert_eq!(c.temperature, 700);
    assert_eq!(c.max_tokens, 800);
    assert_eq!(c.top_p, 950);
    assert_eq!(c.frequency_penalty, 0);
    assert_eq!(c.presence_penalty, 0);
    assert_eq!(c.stop, None);
    assert_eq!(c, GptConfig::default());
}

#[test]
fn set_fields_are_kept() {
    let c = GptConfig::builder()
        .temperature(800)
        .max_tokens(1000)
        .stop(vec!["x".to_string(), "y".to_string()])
        .build();
    assert_eq!(c.temperature, 800);
    assert_eq!(c.max_tokens, 1000);
    assert_eq!(c.top_p, 950);
    assert_eq!(c.stop, Some(vec!["x".to_string(), "y".to_string()]));
}

#[test]
fn hand_filled_builder_is_still_clamped() {
    let mut b = GptConfig::builder();
    b.temperature = Some(4000);
    b.top_p = Some(-1);
    let c = b.build();
    assert_eq!(c.temperature, 2000);
    assert_eq!(c.top_p, 0);
}

#[test]
fn clamp_edges() {
    assert_eq!(clamp_i32(-3, 0, 10), 0);
    assert_eq!(clamp_i32(0, 0, 10), 0);
    assert_eq!(clamp_i32(10, 0, 10), 10);
    assert_eq!(clamp_i32(11, 0, 10), 10);
    assert_eq!(clamp_i32(5, 5, 5), 5);
}
