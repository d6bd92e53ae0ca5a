use mirakc::config::{Config, FiltersConfig, RecorderConfig, TimeshiftConfig};
use mirakc::epg::{EpgChannel, EpgService};
use mirakc::error::MirakcError;
use mirakc::filter::{append_filter, FilterPipelineBuilder};
use mirakc::models::{ChannelType, ServiceTriple};
use mirakc::tag::{is_blank, is_plain_template};
use mirakc::template::{render, TemplateVarsBuilder};
use mirakc::timeshift::activation::{
    after_tuning, complete_pipeline, has_plain_templates, make_session, ActivationAction, ActivationEvent,
    ActivationState, TimeshiftActivation,
};
use mirakc::timeshift::recorder::TimeshiftRecorderSession;

fn activation() -> TimeshiftActivation {
    TimeshiftActivation {
        name: "nhk".to_string(),
        config: TimeshiftConfig {
            service_triple: ServiceTriple { nid: 1, tsid: 2, sid: 1024 },
            file: "/var/nhk.m2ts".to_string(),
            chunk_size: 154009600,
            num_chunks: 480,
            num_reserves: 1,
            priority: 128,
        },
        service: EpgService {
            nid: 1,
            tsid: 2,
            sid: 1024,
            service_type: 1,
            logo_id: -1,
            remote_control_key_id: 1,
            name: "NHK".to_string(),
            channel: EpgChannel {
                name: "Channel 27".to_string(),
                channel_type: ChannelType::BS,
                channel: "27".to_string(),
                extra_args: "--x".to_string(),
                services: vec![1024],
                excluded_services: vec![1025, 1026],
            },
        },
    }
}

fn config(service: &str, decode: &str, record: &str) -> Config {
    Config {
        timeshift: vec![],
        filters: FiltersConfig {
            service_filter: service.to_string(),
            decode_filter: decode.to_string(),
        },
        recorder: RecorderConfig { record_service_command: record.to_string() },
    }
}

#[test]
fn test_stream_request_names_the_recorder() {
    let request = activation().stream_request();
    assert_eq!(request.user_name, "timeshift(nhk)");
    assert_eq!(request.priority, 128);
    assert_eq!(request.channel.channel, "27");
    assert_eq!(request.channel.channel_type, ChannelType::BS);
    assert_eq!(request.channel.extra_args, "--x");
    assert_eq!(request.channel.services, vec![1024]);
    assert_eq!(request.channel.excluded_services, vec![1025, 1026]);
}

#[test]
fn test_pipeline_is_rendered_with_the_variables() {
    let config = config(
        "filter --sid={{{sid}}} {{{channel_type}}}/{{{channel}}}/{{{channel_name}}}",
        "decode",
        "record {{{name}}} {{{sid}}} {{{file}}} {{{chunk_size}}} {{{num_chunks}}}",
    );
    let commands = activation().make_pipeline(&config, false).unwrap();
    assert_eq!(
        commands,
        vec![
            "filter --sid=1024 BS/27/Channel 27".to_string(),
            "decode".to_string(),
            "record nhk 1024 /var/nhk.m2ts 154009600 480".to_string(),
        ]
    );
}

#[test]
fn test_decoded_stream_is_not_decoded_again() {
    let config = config("filter", "decode {{", "record");
    let commands = activation().make_pipeline(&config, true).unwrap();
    assert_eq!(commands, vec!["filter".to_string(), "record".to_string()]);
    assert_eq!(
        activation().make_pipeline(&config, false).err(),
        Some(MirakcError::InvalidTemplate)
    );
}

#[test]
fn test_empty_filters_are_left_out_of_a_pipeline() {
    let config = config("", "", "record");
    assert_eq!(activation().make_pipeline(&config, false).unwrap(), vec!["record".to_string()]);
}

#[test]
fn test_pipeline_with_an_invalid_template_fails() {
    let result = activation().make_pipeline(&config("{{sid", "", "record"), false);
    assert_eq!(result.err(), Some(MirakcError::InvalidTemplate));
    let result = activation().make_pipeline(&config("", "", "record {{#name}}"), false);
    assert_eq!(result.err(), Some(MirakcError::InvalidTemplate));
}

#[test]
fn test_activation_runs_to_success() {
    let config = config("filter", "decode", "record {{name}}");
    let activation = activation();
    let (state, action) = activation.step(
        &config,
        ActivationState::Tuning,
        ActivationEvent::Tuned { decoded: false, stop_trigger: "trigger" },
    );
    assert!(matches!(state, ActivationState::Spawning("trigger")));
    match action {
        ActivationAction::Spawn(commands) => assert_eq!(
            commands,
            vec!["filter".to_string(), "decode".to_string(), "record nhk".to_string()]
        ),
        ActivationAction::Finish(_) => panic!("nothing to spawn"),
    }
    let (state, action) = activation.step(&config, state, ActivationEvent::Spawned);
    assert!(matches!(state, ActivationState::Finished));
    assert!(matches!(action, ActivationAction::Finish(Ok("trigger"))));
}

#[test]
fn test_activation_fails_at_each_step() {
    let bad = config("", "", "{{x");
    let good = config("", "", "record");
    let activation = activation();
    let (state, action) =
        activation.step::<&str>(&good, ActivationState::Tuning, ActivationEvent::TuningFailed);
    assert!(matches!(state, ActivationState::Finished));
    assert!(matches!(action, ActivationAction::Finish(Err(MirakcError::TunerUnavailable))));
    let (state, action) = activation.step(
        &bad,
        ActivationState::Tuning,
        ActivationEvent::Tuned { decoded: true, stop_trigger: "trigger" },
    );
    assert!(matches!(state, ActivationState::Finished));
    assert!(matches!(action, ActivationAction::Finish(Err(MirakcError::InvalidTemplate))));
    let (state, action) = activation.step(
        &good,
        ActivationState::Spawning("trigger"),
        ActivationEvent::SpawnFailed,
    );
    assert!(matches!(state, ActivationState::Finished));
    assert!(matches!(action, ActivationAction::Finish(Err(MirakcError::PipelineFailed))));
}

#[test]
fn test_activation_goes_on_with_any_commands() {
    let (state, action) = after_tuning(5, Ok(vec!["a".to_string()]));
    assert!(matches!(state, ActivationState::Spawning(5)));
    assert!(matches!(action, ActivationAction::Spawn(commands) if commands == ["a"]));
    let (state, action) = after_tuning(5, Err(MirakcError::InvalidTemplateValue));
    assert!(matches!(state, ActivationState::Finished));
    assert!(matches!(action, ActivationAction::Finish(Err(MirakcError::InvalidTemplateValue))));
}

#[test]
fn test_session_of_an_activation() {
    assert!(matches!(make_session(Ok(7)), TimeshiftRecorderSession::Active(7)));
    assert!(matches!(
        make_session::<i32>(Err(MirakcError::PipelineFailed)),
        TimeshiftRecorderSession::Inactive
    ));
}

#[test]
fn test_record_command_comes_last() {
    let commands = complete_pipeline(vec!["filter".to_string()], Ok("record".to_string()));
    assert_eq!(commands.unwrap(), vec!["filter".to_string(), "record".to_string()]);
    let commands = complete_pipeline(vec![], Ok("".to_string()));
    assert_eq!(commands.unwrap(), vec!["".to_string()]);
    let commands = complete_pipeline(vec![], Err(MirakcError::InvalidTemplate));
    assert_eq!(commands.err(), Some(MirakcError::InvalidTemplate));
}

#[test]
fn test_append_filter() {
    let mut commands = vec!["a".to_string()];
    assert_eq!(append_filter(&mut commands, Ok("b".to_string())), Ok(()));
    assert_eq!(append_filter(&mut commands, Ok("".to_string())), Ok(()));
    assert_eq!(
        append_filter(&mut commands, Err(MirakcError::InvalidTemplate)),
        Err(MirakcError::InvalidTemplate)
    );
    assert_eq!(commands, vec!["a".to_string(), "b".to_string()]);
}

#[test]
fn test_filter_pipeline_builder() {
    let vars = TemplateVarsBuilder::new().with_number("sid", 3).unwrap().build();
    let mut builder = FilterPipelineBuilder::new(vars);
    assert_eq!(builder.add_service_filter("extract {{sid}}"), Ok(()));
    assert_eq!(builder.add_decode_filter("{{missing}}"), Ok(()));
    assert_eq!(builder.add_decode_filter("decode"), Ok(()));
    assert_eq!(builder.add_service_filter("{{"), Err(MirakcError::InvalidTemplate));
    assert_eq!(builder.build(), vec!["extract 3".to_string(), "decode".to_string()]);
}

#[test]
fn test_render_replaces_variables() {
    let vars = TemplateVarsBuilder::new()
        .with_text("a", "x<y")
        .with_number("n", u64::MAX)
        .unwrap()
        .with_text("a", "z")
        .build();
    assert_eq!(render("{{a}}-{{n}}-{{b}}", &vars).unwrap(), "z-18446744073709551615-");
    assert_eq!(render("plain text", &vars).unwrap(), "plain text");
    assert_eq!(render("", &vars).unwrap(), "");
    assert_eq!(render("{{a", &vars), Err(MirakcError::InvalidTemplate));
    assert_eq!(render("{{#a}}{{n}}{{/a}}", &vars).is_ok(), true);
}

#[test]
fn test_render_keeps_texts_apart() {
    let vars = TemplateVarsBuilder::new().with_text("a", "x<y").with_number("n", 0).unwrap().build();
    assert_eq!(render("{{{a}}} {{n}}", &vars).unwrap(), "x<y 0");
    assert_ne!(render("{{a}}", &vars).unwrap(), "{{a}}");
}

fn is_plain(template: &str) -> bool {
    is_plain_template(template, &vec!["name".to_string(), "sid".to_string()])
}

#[test]
fn test_plain_templates() {
    assert!(is_plain("record --file={{{file}}} {{name}} > /dev/null 2.txt"));
    assert!(is_plain("{{#a}}{{a.b}}{{/a}} ."));
    assert!(is_plain("parallel {.} {{name}}>out { . }"));
    assert!(is_plain(""));
}

#[test]
fn test_partials_are_not_plain() {
    assert!(!is_plain("{{>partial}}"));
    assert!(!is_plain("a {{> partial }} b"));
    assert!(!is_plain("{{#name}}{{>partial}}{{/name}}"));
    assert!(is_plain("{{ >partial}}"));
    assert!(is_plain("{{!>partial}}"));
    assert!(is_plain("{ {>partial}}"));
}

#[test]
fn test_variables_as_a_whole_are_not_plain() {
    assert!(!is_plain("a {{.}} b"));
    assert!(!is_plain("{{\u{3000}.\n}}"));
    assert!(!is_plain("{{{ . }}}"));
    assert!(!is_plain("{{& .}}"));
    assert!(!is_plain("{{#.}}{{.}}{{/.}}"));
    assert!(!is_plain("{{#name}}{{/name}}{{.}}"));
    assert!(!is_plain("{{^file}}{{.}}{{/file}}"));
    assert!(!is_plain("{{^sid.x}}{{.}}{{/sid.x}}"));
    assert!(is_plain("{{..}}{{.a}}"));
    assert!(is_plain("{{!.}}"));
}

#[test]
fn test_sections_give_a_lone_dot_a_meaning() {
    assert!(is_plain("{{#name}}{{.}}{{/name}}"));
    assert!(is_plain("{{#file}}{{#.}}{{^x}}{{{.}}}{{/x}}{{/.}}{{/file.}}"));
    assert!(is_plain("{{^name}}{{.}}{{/name}}"));
    assert!(is_plain("{{^.}}{{.}}{{/.}}"));
}

#[test]
fn test_delimiters_are_followed() {
    assert!(is_plain("{{=<% %>=}}<%sid%> {{.}} {{>partial}} a > b."));
    assert!(!is_plain("{{=<% %>=}}<% . %>"));
    assert!(!is_plain("{{=<% %>=}}<%>partial%>"));
    assert!(!is_plain("{{= <%   %> =}}<%={{ }}=%>{{.}}"));
    assert!(!is_plain("{{=| |=}}|.|"));
    assert!(is_plain("{{=| |=}}|name|.| >"));
    assert!(is_plain("{{=<% %>=}}<<%.%>"));
    assert!(!is_plain("{{=<% %>=}}<<%a <%>partial%>"));
}

#[test]
fn test_ill_formed_templates_are_plain() {
    assert!(is_plain("{{.}} {{name"));
    assert!(is_plain("{{.}} {{name}x"));
    assert!(is_plain("{{>partial}} {{}}"));
    assert!(!is_plain("{{>partial}} {{{name}}"));
    assert!(is_plain("{{>partial}} {{{name}} }}"));
    assert!(is_plain("{{.}} {{=<% %>=}}<%{name%>"));
    assert!(is_plain("{{.}} {{#name}}"));
    assert!(is_plain("{{.}} {{/name}}"));
    assert!(is_plain("{{.}} {{#name}}{{/sid}}"));
    assert!(is_plain("{{.}} {{=<%=}}"));
    assert!(is_plain("{{.}} {{==}}"));
    assert!(is_plain("{{=<% %>}}{{.}}"));
    assert!(!is_plain("{{.}} {{=<% %%%=}}<%name%"));
    assert!(is_plain("{{.}} {{=<% %%%=}}<%name%%%%"));
}

#[test]
fn test_plain_templates_are_rendered() {
    let vars = TemplateVarsBuilder::new()
        .with_text("name", "nhk")
        .with_number("sid", 3)
        .unwrap()
        .build();
    for (template, text) in [
        ("parallel {.} ::: a", "parallel {.} ::: a"),
        ("{{=<% %>=}}<%sid%>", "3"),
        ("{{=<% %>=}}<%sid%> {{.}} {{>x}}", "3 {{.}} {{>x}}"),
        ("{{=<% %>=}}<<%.%> <%sid%>", "<<%.%> 3"),
        ("{{=| |=}}|name|.ts > x", "nhk.ts > x"),
        ("{{=<% %>=}}<%={{ }}=%>{{sid}}", "3"),
        ("{{#name}}{{.}}{{/name}}", "nhk"),
        ("{{#name}}{{#.}}{{^x}}{{{.}}}{{/x}}{{/.}}{{/name.}}", "nhk"),
        ("{{#missing}}{{.}}{{/missing}}", ""),
        ("{{^name}}{{.}}{{/name}}", ""),
        ("{{^.}}{{.}}{{/.}}", ""),
        ("{{..}}{{.a}}", ""),
        ("{{ >partial}}", ""),
        ("a {", "a {"),
    ] {
        assert!(is_plain(template), "{}", template);
        assert_eq!(render(template, &vars), Ok(text.to_string()), "{}", template);
    }
}

#[test]
fn test_ill_formed_templates_are_refused() {
    let vars = TemplateVarsBuilder::new().with_text("name", "nhk").with_text("sid", "3").build();
    for template in [
        "{{.}} {{name",
        "{{.}} {{name}x",
        "{{>partial}} {{}}",
        "{{>partial}} {{{name}} }}",
        "{{.}} {{=<% %>=}}<%{name%>",
        "{{.}} {{#name}}",
        "{{.}} {{/name}}",
        "{{.}} {{#name}}{{/sid}}",
        "{{.}} {{=<%=}}",
        "{{.}} {{==}}",
        "{{=<% %>}}{{.}}",
        "{{.}} {{=<% %%%=}}<%name%%%%",
    ] {
        assert!(is_plain(template), "{}", template);
        assert_eq!(render(template, &vars), Err(MirakcError::InvalidTemplate), "{}", template);
    }
}

#[test]
fn test_blanks() {
    for code in 0..=0x10ffff {
        if let Some(c) = char::from_u32(code) {
            assert_eq!(is_blank(c), c.is_whitespace(), "{:x}", code);
        }
    }
}

#[test]
fn test_decode_filter_of_a_decoded_stream_is_not_looked_at() {
    let config = config("", "{{.}}", "record {{name}}");
    assert!(has_plain_templates(&config, true));
    assert!(!has_plain_templates(&config, false));
    assert_eq!(
        activation().make_pipeline(&config, true).unwrap(),
        vec!["record nhk".to_string()]
    );
}

#[test]
fn test_templates_are_plain_for_their_own_variables() {
    let filter = "{{^channel}}{{.}}{{/channel}}";
    let record = "{{^file}}{{.}}{{/file}}";
    assert!(has_plain_templates(&config(filter, filter, record), false));
    assert!(!has_plain_templates(&config(record, "", ""), true));
    assert!(!has_plain_templates(&config("", "", filter), true));
    let commands = activation().make_pipeline(&config(filter, filter, record), false);
    assert_eq!(commands.unwrap(), vec!["".to_string()]);
}

#[test]
fn test_failures_of_tuner_and_pipeline_need_no_templates() {
    let config = config("{{.}}", "{{.}}", "{{>x}}");
    let (_, action) =
        activation().step::<&str>(&config, ActivationState::Tuning, ActivationEvent::TuningFailed);
    assert!(matches!(action, ActivationAction::Finish(Err(MirakcError::TunerUnavailable))));
    let (_, action) = activation().step(
        &config,
        ActivationState::Spawning("trigger"),
        ActivationEvent::SpawnFailed,
    );
    assert!(matches!(action, ActivationAction::Finish(Err(MirakcError::PipelineFailed))));
    let (_, action) = activation().step(
        &config,
        ActivationState::Spawning("trigger"),
        ActivationEvent::Spawned,
    );
    assert!(matches!(action, ActivationAction::Finish(Ok("trigger"))));
}
