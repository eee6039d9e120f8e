use dp_common::logging::{
    can_be_parsed, choose_filter, init, init_default, is_production, plan, select_filter,
    FilterChoice, LogFormat, Logging,
};

fn directives(choice: &FilterChoice) -> Option<&str> {
    match choice {
        FilterChoice::Directives(text) => Some(text.as_str()),
        FilterChoice::Level(_) => None,
    }
}

fn level(choice: &FilterChoice) -> Option<&str> {
    match choice {
        FilterChoice::Level(text) => Some(text.as_str()),
        FilterChoice::Directives(_) => None,
    }
}

#[test]
fn test_init_does_not_panic() {
    let mut guard = Logging::new();
    let plan = init(&mut guard, "test-service", false, "info", None);
    assert_eq!(plan.service_name, "test-service");
    assert!(guard.is_installed());
}

#[test]
fn guard_starts_unused_and_is_used_up_by_init() {
    let mut guard = Logging::new();
    assert!(!guard.is_installed());
    init(&mut guard, "svc", true, "debug", None);
    assert!(guard.is_installed());
    let mut other = Logging::new();
    init_default(&mut other, "svc", None, None);
    assert!(other.is_installed());
}

#[test]
fn json_plan() {
    let mut guard = Logging::new();
    let plan = init(&mut guard, "ingest", true, "debug", None);
    assert_eq!(plan.format, LogFormat::Json);
    assert_eq!(plan.service_name, "ingest");
    assert_eq!(plan.announcement, "Logging initialized");
    assert_eq!(level(&plan.filter), Some("debug"));
    assert!(plan.target);
    assert!(plan.current_span);
    assert!(plan.span_close_events);
    assert!(plan.flatten_event);
    assert!(!plan.thread_ids);
    assert!(!plan.file);
    assert!(!plan.line_number);
}

#[test]
fn text_plan() {
    let mut guard = Logging::new();
    let plan = init(&mut guard, "ingest", false, "warn", None);
    assert_eq!(plan.format, LogFormat::Text);
    assert_eq!(level(&plan.filter), Some("warn"));
    assert!(plan.target);
    assert!(!plan.current_span);
    assert!(!plan.span_close_events);
    assert!(!plan.flatten_event);
    assert!(!plan.thread_ids);
    assert!(plan.file);
    assert!(plan.line_number);
}

#[test]
fn plan_keeps_the_filter_it_is_given() {
    let built = plan("svc", true, FilterChoice::Directives("a=debug".to_string()));
    assert_eq!(directives(&built.filter), Some("a=debug"));
    let built = plan("svc", false, FilterChoice::Level("trace".to_string()));
    assert_eq!(level(&built.filter), Some("trace"));
}

#[test]
fn outside_filter_wins_over_the_level() {
    let mut guard = Logging::new();
    let plan = init(&mut guard, "svc", false, "info", Some("debug,hyper=warn"));
    assert_eq!(directives(&plan.filter), Some("debug,hyper=warn"));
}

#[test]
fn invalid_outside_filter_falls_back_to_the_level() {
    let choice = select_filter(Some("svc=notalevel=twice"), "info");
    assert_eq!(level(&choice), Some("info"));
    let mut guard = Logging::new();
    let plan = init(&mut guard, "svc", true, "error", Some("svc=notalevel=twice"));
    assert_eq!(level(&plan.filter), Some("error"));
}

#[test]
fn valid_outside_filters_are_accepted() {
    for text in ["info", "debug,hyper=warn", "my_crate::module=trace", "", "warn,"] {
        let choice = select_filter(Some(text), "info");
        assert_eq!(directives(&choice), Some(text), "{text:?}");
    }
}

#[test]
fn unset_outside_filter_leaves_the_level() {
    let choice = select_filter(None, "debug");
    assert_eq!(level(&choice), Some("debug"));
}

#[test]
fn choose_filter_goes_by_the_verdict_it_is_given() {
    assert_eq!(directives(&choose_filter(Some("x"), true, "info")), Some("x"));
    assert_eq!(level(&choose_filter(Some("x"), false, "info")), Some("info"));
    assert_eq!(level(&choose_filter(None, true, "info")), Some("info"));
    assert_eq!(level(&choose_filter(None, false, "warn")), Some("warn"));
}

#[test]
fn production_is_spelled_exactly() {
    assert!(is_production(Some("prod")));
    assert!(is_production(Some("production")));
    assert!(!is_production(Some("Prod")));
    assert!(!is_production(Some("PRODUCTION")));
    assert!(!is_production(Some("prod ")));
    assert!(!is_production(Some("staging")));
    assert!(!is_production(Some("local")));
    assert!(!is_production(Some("")));
    assert!(!is_production(None));
}

#[test]
fn defaults_follow_the_environment() {
    let mut guard = Logging::new();
    let plan = init_default(&mut guard, "svc", Some("prod"), None);
    assert_eq!(plan.format, LogFormat::Json);
    assert_eq!(level(&plan.filter), Some("info"));
    let mut guard = Logging::new();
    let plan = init_default(&mut guard, "svc", Some("production"), None);
    assert_eq!(plan.format, LogFormat::Json);
    let mut guard = Logging::new();
    let plan = init_default(&mut guard, "svc", Some("staging"), None);
    assert_eq!(plan.format, LogFormat::Text);
    assert_eq!(level(&plan.filter), Some("info"));
    let mut guard = Logging::new();
    let plan = init_default(&mut guard, "svc", None, Some("trace"));
    assert_eq!(plan.format, LogFormat::Text);
    assert_eq!(directives(&plan.filter), Some("trace"));
}

#[test]
fn texts_without_a_cut_inside_a_character_can_be_parsed() {
    for text in [
        "",
        "info",
        "info,hyper=warn",
        "info, hyper=warn",
        " info",
        "caf\u{e9}=debug",
        "caf\u{e9}=debug, info",
        " \u{e9}",
        " \u{e9}t\u{e9}",
        "\u{a0}ab=\u{e9}",
        "info,\u{e9}t\u{e9}=trace",
        "[span{field=\u{e9}}]=debug",
        "a=b=c",
        " \u{1f600}{",
        " [\u{e9}=x]",
        " \u{e9}]",
        " a=\u{e9}[\u{e9}]",
    ] {
        assert!(can_be_parsed(text), "{text:?}");
    }
}

#[test]
fn texts_with_a_cut_inside_a_character_cannot_be_parsed() {
    for text in [
        " \u{e9}=debug",
        "info, \u{e9}=debug",
        " \u{e9}t\u{e9}=debug",
        "\u{a0}\u{e9}=x",
        "  \u{e9}\u{e9}=x",
        "a=b,\t\u{4e2d}[x]",
        " [\u{e9}]",
        " [a{\u{e9}}]",
        " [\u{e9}]=debug",
    ] {
        assert!(!can_be_parsed(text), "{text:?}");
    }
}

#[test]
fn text_that_would_break_the_parser_falls_back_to_the_level() {
    let choice = select_filter(Some("info, \u{e9}=debug"), "warn");
    assert_eq!(level(&choice), Some("warn"));
    let mut guard = Logging::new();
    let plan = init(&mut guard, "svc", false, "error", Some(" \u{e9}t\u{e9}=debug"));
    assert_eq!(level(&plan.filter), Some("error"));
}

#[test]
fn every_text_the_parser_can_take_is_given_to_it() {
    for text in [
        "caf\u{e9}=debug, info",
        " \u{e9}",
        "caf\u{e9}=debug",
        " info",
        "\u{a0}\u{e9}",
        " [\u{e9}=x]",
    ] {
        let choice = select_filter(Some(text), "warn");
        assert_eq!(directives(&choice), Some(text), "{text:?}");
    }
    let mut guard = Logging::new();
    let plan = init(&mut guard, "svc", true, "warn", Some("caf\u{e9}=debug, info"));
    assert_eq!(directives(&plan.filter), Some("caf\u{e9}=debug, info"));
    for text in ["info, cafe=debug", "\u{a0}ab=debug", " \u{1f600}{"] {
        assert!(can_be_parsed(text));
        let choice = select_filter(Some(text), "warn");
        assert_eq!(level(&choice), Some("warn"), "{text:?}");
    }
}

#[test]
fn no_short_text_breaks_the_choice() {
    let alphabet = [' ', '\u{a0}', '\u{e9}', '\u{4e2d}', 'a', '=', '[', ']', '{', '}', ','];
    let mut texts = vec![String::new()];
    let mut from = 0;
    for _ in 0..5 {
        let until = texts.len();
        for at in from..until {
            for c in alphabet {
                let mut longer = texts[at].clone();
                longer.push(c);
                texts.push(longer);
            }
        }
        from = until;
    }
    let mut taken = 0;
    for text in &texts {
        match select_filter(Some(text), "warn") {
            FilterChoice::Directives(_) => taken += 1,
            FilterChoice::Level(kept) => assert_eq!(kept, "warn"),
        }
    }
    assert!(taken > 0);
}
