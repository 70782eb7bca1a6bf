use groq::chat::{
    CreateChatCompletion, Message, ResponseFormat, ResponseKind, Role, StreamOptions,
};
use groq::float::{Float32, Float64};
use groq::models::Model;

fn f(x: f32) -> Float32 {
    Float32::from_bits(x.to_bits())
}

#[test]
fn should_set_stream() {
    let request = CreateChatCompletion::default();
    assert_eq!(request.stream, None);

    let request = request.with_stream(true);
    assert_eq!(request.stream, Some(true));

    let request = request.with_stream(false);
    assert_eq!(request.stream, Some(false));
}

#[test]
fn should_set_temperature_between_boundaries() {
    let request = CreateChatCompletion::default();
    assert_eq!(request.temperature, None);

    let request = request.with_temperature(f(0.9));
    assert_eq!(request.temperature, Some(f(0.9)));

    let request = request.with_temperature(f(2.9));
    assert_eq!(request.temperature, Some(f(2.0)));

    let request = request.with_temperature(f(-1.1));
    assert_eq!(request.temperature, Some(f(0.0)));
}

#[test]
fn should_set_top_p_between_boundaries() {
    let request = CreateChatCompletion::default();
    assert_eq!(request.top_p, None);

    let request = request.with_top_p(f(0.4));
    assert_eq!(request.top_p, Some(f(0.4)));

    let request = request.with_top_p(f(-0.4));
    assert_eq!(request.top_p, Some(f(0.0)));

    let request = request.with_top_p(f(1.4));
    assert_eq!(request.top_p, Some(f(1.0)));
}

#[test]
fn default_request_has_token_cap_and_no_options() {
    let request = CreateChatCompletion::default();
    assert_eq!(request.stream, None);
    assert_eq!(request.max_tokens, Some(1000));
    assert_eq!(request.model, Model::Llama38B);
    assert!(request.messages.is_empty());
    assert_eq!(request.n, None);
    assert_eq!(request.seed, None);
    assert!(request.logit_bias.is_none());
    assert_eq!(request.user, None);
}

#[test]
fn new_keeps_model_and_messages_and_defaults_the_rest() {
    let msg = Message { content: "hi".to_string(), role: Role::User, name: None };
    let request = CreateChatCompletion::new(Model::Llama38B, vec![msg]);
    assert_eq!(request.messages.len(), 1);
    assert_eq!(request.messages[0].content, "hi");
    assert_eq!(request.messages[0].role, Role::User);
    assert_eq!(request.max_tokens, Some(1000));
    assert_eq!(request.temperature, None);
}

#[test]
fn temperature_bounds_are_kept_exactly() {
    let r = CreateChatCompletion::default();
    assert_eq!(r.clone().with_temperature(f(0.0)).temperature, Some(f(0.0)));
    assert_eq!(r.clone().with_temperature(f(2.0)).temperature, Some(f(2.0)));
    assert_eq!(r.clone().with_temperature(f(-0.0)).temperature, Some(f(-0.0)));
    assert_eq!(r.clone().with_temperature(f(1.0)).temperature, Some(f(1.0)));
}

#[test]
fn temperature_far_out_of_range_is_clamped() {
    let r = CreateChatCompletion::default();
    assert_eq!(r.clone().with_temperature(f(f32::INFINITY)).temperature, Some(f(2.0)));
    assert_eq!(r.clone().with_temperature(f(f32::NEG_INFINITY)).temperature, Some(f(0.0)));
    assert_eq!(r.clone().with_temperature(f(2.0000002)).temperature, Some(f(2.0)));
    assert_eq!(r.clone().with_temperature(f(-1e-30)).temperature, Some(f(0.0)));
}

#[test]
fn top_p_bounds_are_kept_exactly() {
    let r = CreateChatCompletion::default();
    assert_eq!(r.clone().with_top_p(f(0.0)).top_p, Some(f(0.0)));
    assert_eq!(r.clone().with_top_p(f(1.0)).top_p, Some(f(1.0)));
    assert_eq!(r.clone().with_top_p(f(1.5)).top_p, Some(f(1.0)));
    assert_eq!(r.clone().with_top_p(f(f32::NEG_INFINITY)).top_p, Some(f(0.0)));
}

#[test]
fn nan_sampling_values_become_zero() {
    let nan = f(f32::NAN);
    let r = CreateChatCompletion::default().with_temperature(nan).with_top_p(nan);
    assert_eq!(r.temperature, Some(f(0.0)));
    assert_eq!(r.top_p, Some(f(0.0)));
    let negative_nan = Float32::from_bits(0xffc0_0001);
    let r = r.with_temperature(negative_nan).with_top_p(negative_nan);
    assert_eq!(r.temperature, Some(f(0.0)));
    assert_eq!(r.top_p, Some(f(0.0)));
}

#[test]
fn stored_sampling_values_are_always_in_range() {
    let values = [-3.0f32, -0.0, 0.0, 0.3, 1.0, 1.7, 2.0, 9.5, f32::INFINITY, f32::NEG_INFINITY, f32::NAN];
    for x in values {
        let r = CreateChatCompletion::default().with_temperature(f(x)).with_top_p(f(x));
        let t = f32::from_bits(r.temperature.unwrap().to_bits());
        let p = f32::from_bits(r.top_p.unwrap().to_bits());
        assert!((0.0..=2.0).contains(&t), "temperature {} from {}", t, x);
        assert!((0.0..=1.0).contains(&p), "top_p {} from {}", p, x);
    }
}

#[test]
fn clamping_leaves_other_fields_alone() {
    let r = CreateChatCompletion::default()
        .with_seed(7)
        .with_temperature(f(3.0))
        .with_top_p(f(0.5));
    assert_eq!(r.seed, Some(7));
    assert_eq!(r.temperature, Some(f(2.0)));
    assert_eq!(r.top_p, Some(f(0.5)));
    assert_eq!(r.max_tokens, Some(1000));
}

#[test]
fn float_comparison_follows_f32() {
    let values = [-2.5f32, -1.0, -0.0, 0.0, 0.25, 1.0, 2.0, 3.5, f32::INFINITY, f32::NAN];
    for a in values {
        for b in values {
            assert_eq!(f(a).lt(&f(b)), a < b, "{} < {}", a, b);
        }
    }
    assert!(f(f32::NAN).is_nan_exec());
    assert!(!f(1.0).is_nan_exec());
}

#[test]
fn float_bits_round_trip() {
    assert_eq!(f(0.9).to_bits(), 0.9f32.to_bits());
    assert_eq!(Float64::from_bits((-9999.0f64).to_bits()).to_bits(), (-9999.0f64).to_bits());
}

#[test]
fn setters_store_their_values() {
    let r = CreateChatCompletion::default()
        .with_model(Model::Llama38B)
        .with_messages(vec![Message {
            content: "be brief".to_string(),
            role: Role::System,
            name: Some("ops".to_string()),
        }])
        .with_frequence_penalty(f(0.5))
        .with_logit_bias(serde_json::Value::Null)
        .with_logprobs(true)
        .with_top_logprobs(5)
        .with_max_tokens(42)
        .with_n(1)
        .with_presence_penalty(f(-1.5))
        .with_response_format(ResponseFormat { kind: ResponseKind::JsonObject })
        .with_service_tier("auto".to_string())
        .with_stop("END".to_string())
        .with_stream_options(StreamOptions { include_usage: Some(true) })
        .with_parallel_tool_calls(false)
        .with_user("u-1".to_string());
    assert_eq!(r.messages[0].name.as_deref(), Some("ops"));
    assert_eq!(r.frequency_penalty, Some(f(0.5)));
    assert_eq!(r.logit_bias, Some(serde_json::Value::Null));
    assert_eq!(r.logprobs, Some(true));
    assert_eq!(r.top_logprobs, Some(5));
    assert_eq!(r.max_tokens, Some(42));
    assert_eq!(r.n, Some(1));
    assert_eq!(r.presence_penalty, Some(f(-1.5)));
    assert_eq!(r.response_format, Some(ResponseFormat { kind: ResponseKind::JsonObject }));
    assert_eq!(r.service_tier.as_deref(), Some("auto"));
    assert_eq!(r.stop.as_deref(), Some("END"));
    assert_eq!(r.stream_options, Some(StreamOptions { include_usage: Some(true) }));
    assert_eq!(r.parallel_tool_calls, Some(false));
    assert_eq!(r.user.as_deref(), Some("u-1"));
}
