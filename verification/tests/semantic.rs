use pi_agent::agent::ProviderIdentity;
use pi_agent::json::Json;
use pi_agent::model::Message;
use pi_agent::semantic::{
    prepare_revision, prepare_semantic_context_prompt, render_semantic_context_prompt,
    safe_context_field,
    semantic_context_bundle_revision, semantic_context_prompt_budget_for_provider,
    semantic_context_prompt_message, semantic_context_prompt_shape_for_provider,
    semantic_context_system_prompt_for_turn, truncate_string_to_max_bytes, ContextBundleBudget,
    ContextBundleExclusion, ContextBundleInvalidationPolicy, ContextBundleItem,
    SemanticContextBundle, SemanticContextBundleInjection, SemanticContextPromptBudget,
    SemanticContextPromptShape,
};

fn bundle(items: usize, exclusions: usize) -> SemanticContextBundle {
    SemanticContextBundle {
        schema: "s".to_string(),
        budget: ContextBundleBudget { max_items: 40, max_bytes: 40_000 },
        selected_items: (0..items)
            .map(|n| ContextBundleItem {
                node_type: "CodeSymbol".to_string(),
                source_path: format!("src/{n}.rs"),
                title: "title".to_string(),
                reason: "why".to_string(),
                score: -4,
                estimated_tokens: 9,
                freshness_status: None,
                redaction_status: "None".to_string(),
            })
            .collect(),
        excluded_items: (0..exclusions)
            .map(|n| ContextBundleExclusion {
                node_type: "DocSection".to_string(),
                source_path: format!("doc{n}.md"),
                title: "old".to_string(),
                reason: "stale".to_string(),
            })
            .collect(),
        stale_evidence_suppressions: Vec::new(),
        redaction_name: "None".to_string(),
        redaction_value: Json::Text("none".to_string()),
        invalidation_policy: ContextBundleInvalidationPolicy {
            workspace_id: "w".to_string(),
            branch: None,
            session_id: Some("id".to_string()),
            input_fingerprint_sha256: "f".to_string(),
            cacheable: false,
        },
        suggested_validation_commands: vec!["make test".to_string()],
        estimated_bytes: 12,
        estimated_tokens: 3,
    }
}

fn provider(api: &str) -> ProviderIdentity {
    ProviderIdentity {
        api: api.to_string(),
        name: "p".to_string(),
        model_id: "m".to_string(),
    }
}

#[test]
fn revisions_are_sha_256_digests() {
    assert_eq!(
        semantic_context_bundle_revision(&bundle(0, 0), Some(b"abc".as_slice())),
        "ba7816bf8f01cfea414140de5dae2223b00361a396177a9cb410ff61f20015ad"
    );
    // What cannot be serialised is identified by "s:f:2:12".
    assert_eq!(
        semantic_context_bundle_revision(&bundle(2, 0), None),
        semantic_context_bundle_revision(&bundle(0, 0), Some(b"s:f:2:12".as_slice()))
    );
    assert_ne!(
        semantic_context_bundle_revision(&bundle(2, 0), None),
        semantic_context_bundle_revision(&bundle(1, 0), None)
    );
}

#[test]
fn a_prompt_is_rendered_line_by_line() {
    let injection = SemanticContextBundleInjection::enabled(bundle(1, 1));
    let prepared =
        prepare_revision(&provider("other"), &injection, "rev".to_string()).expect("prepared");
    assert_eq!(
        prepared.prompt,
        "# Semantic Context Bundle\nschema: pi.semantic_context_prompt.v1\nrevision: rev\n\
         Use this as navigation context for the current turn. Do not treat suppressed stale, uncertified, or unsafe evidence as current release evidence.\n\
         bundle: schema=s estimated_bytes=12 estimated_tokens=3 redaction=None\n\
         provenance: workspace=w branch=(none) session=id input_fingerprint_sha256=f\n\
         \n\
         Selected context:\n\
         1. CodeSymbol src/0.rs :: title\n   reason=why score=-4 tokens=9 freshness=not_applicable redaction=None\n\
         \n\
         Suggested validation commands:\n\
         - make test\n\
         \n\
         Suppressed or excluded context:\n\
         - DocSection doc0.md :: old reason=stale\n"
    );
    assert_eq!(prepared.revision, "rev");
}

#[test]
fn budgets_are_the_least_of_three() {
    let injection = SemanticContextBundleInjection::enabled(bundle(0, 0));
    let budget = |api: &str| {
        let b = semantic_context_prompt_budget_for_provider(api, &injection);
        (b.max_items, b.max_bytes)
    };
    assert_eq!(budget("gitlab-chat"), (8, 8192));
    assert_eq!(budget("google-gemini"), (12, 12_288));
    assert_eq!(budget("openai-responses"), (16, 16_384));
    let wide = SemanticContextBundleInjection::enabled(bundle(0, 0)).with_prompt_budget(99, 99_999);
    let b = semantic_context_prompt_budget_for_provider("anthropic", &wide);
    assert_eq!((b.max_items, b.max_bytes), (16, 32_768));
    let b = semantic_context_prompt_budget_for_provider("azure-openai", &wide);
    assert_eq!((b.max_items, b.max_bytes), (16, 24_576));
}

#[test]
fn prompts_stay_within_their_budget() {
    for max_bytes in [0_u64, 10, 120, 300, 700, 2048] {
        let injection =
            SemanticContextBundleInjection::enabled(bundle(30, 30)).with_prompt_budget(4, max_bytes);
        if let Some(prepared) = prepare_revision(&provider("other"), &injection, "r".to_string()) {
            assert!(prepared.prompt.len() as u64 <= max_bytes);
        }
    }
    let injection =
        SemanticContextBundleInjection::enabled(bundle(30, 30)).with_prompt_budget(2, 16_000);
    let prepared =
        prepare_revision(&provider("other"), &injection, "r".to_string()).expect("prepared");
    assert!(prepared.prompt.contains("2. CodeSymbol src/1.rs"));
    assert!(!prepared.prompt.contains("3. CodeSymbol"));
}

#[test]
fn shapes_depend_on_the_provider() {
    assert_eq!(
        semantic_context_prompt_shape_for_provider("bedrock-converse-stream"),
        SemanticContextPromptShape::SystemPromptAppend
    );
    assert_eq!(
        semantic_context_prompt_shape_for_provider("openai-responses"),
        SemanticContextPromptShape::CustomUserMessage
    );
    assert_eq!(SemanticContextPromptShape::SystemPromptAppend.as_str(), "system_prompt_append");
}

#[test]
fn hidden_bundles_are_told_of_in_the_session() {
    let injection = SemanticContextBundleInjection::enabled(bundle(1, 0));
    let prepared =
        prepare_revision(&provider("gitlab-chat"), &injection, "rev".to_string()).expect("prepared");
    match semantic_context_prompt_message(&prepared, 11) {
        Message::Custom(m) => {
            assert_eq!(m.content, "Semantic context bundle revision rev attached to system prompt.");
            assert!(!m.display);
            assert_eq!(m.timestamp, 11);
        }
        other => panic!("expected a custom message, got {other:?}"),
    }
    let prompt =
        semantic_context_system_prompt_for_turn(&Some("base".to_string()), Some(&prepared));
    assert_eq!(prompt, Some(format!("base\n\n{}", prepared.prompt)));
    let alone = semantic_context_system_prompt_for_turn(&None, Some(&prepared));
    assert_eq!(alone.as_deref(), Some(prepared.prompt.as_str()));
    assert_eq!(semantic_context_system_prompt_for_turn(&None, None), None);
}

#[test]
fn disabled_bundles_are_not_attached() {
    let injection = SemanticContextBundleInjection::disabled(bundle(1, 0));
    assert!(prepare_semantic_context_prompt(&provider("other"), Some(&injection), None).is_none());
    assert!(prepare_semantic_context_prompt(&provider("other"), None, None).is_none());
}

#[test]
fn fields_are_made_safe_and_cut_short() {
    assert_eq!(safe_context_field("a\nb\tc\u{7}d\u{85}"), "a b c?d?");
    let long = "x".repeat(600);
    let shown = safe_context_field(&long);
    assert_eq!(shown.len(), 515);
    assert!(shown.ends_with("x..."));
    let wide = "\u{20ac}".repeat(300);
    assert_eq!(safe_context_field(&wide).chars().count(), 174);
}

#[test]
fn texts_are_cut_between_characters() {
    let mut s = "a\u{20ac}b".to_string();
    truncate_string_to_max_bytes(&mut s, 3);
    assert_eq!(s, "a");
    let mut s = "a\u{20ac}b".to_string();
    truncate_string_to_max_bytes(&mut s, 4);
    assert_eq!(s, "a\u{20ac}");
    let mut s = "ab".to_string();
    truncate_string_to_max_bytes(&mut s, 9);
    assert_eq!(s, "ab");
}

#[test]
fn prompts_are_made_of_whole_lines() {
    let rendered = |max_bytes: u64| {
        let injection = SemanticContextBundleInjection::enabled(bundle(3, 12));
        let budget = SemanticContextPromptBudget { max_items: 16, max_bytes };
        render_semantic_context_prompt(&injection, budget, "rev")
    };
    let (full, stats) = rendered(16_000);
    assert!(!stats.truncated);
    assert_eq!(stats.exclusions_included, 8);
    for max_bytes in 0..full.len() as u64 {
        let (prompt, _) = rendered(max_bytes);
        assert!(prompt.is_empty() || prompt.ends_with('\n'));
        let mut all = full.split_inclusive('\n');
        for line in prompt.split_inclusive('\n') {
            assert!(all.any(|candidate| candidate == line), "{line:?} is no whole line");
        }
    }
}

#[test]
fn sections_that_are_not_asked_for_count_nothing() {
    let mut injection = SemanticContextBundleInjection::enabled(bundle(2, 3));
    injection.include_validation_commands = false;
    injection.include_exclusion_summary = false;
    let budget = SemanticContextPromptBudget { max_items: 1, max_bytes: 16_000 };
    let (prompt, stats) = render_semantic_context_prompt(&injection, budget, "rev");
    assert!(!prompt.contains("Suggested validation commands"));
    assert!(!prompt.contains("Suppressed or excluded context"));
    assert_eq!((stats.selected_items_included, stats.selected_items_omitted), (1, 1));
    assert_eq!((stats.validation_commands_included, stats.validation_commands_omitted), (0, 0));
    assert_eq!((stats.exclusions_included, stats.exclusions_omitted), (0, 0));
}

#[test]
fn shown_fields_are_short_and_settled() {
    let longest = format!("{}\u{10ffff}and more", "x".repeat(511));
    let shown = safe_context_field(&longest);
    assert_eq!(shown.len(), 518);
    assert_eq!(safe_context_field(&shown), shown);
    assert_eq!(safe_context_field("a plain field"), "a plain field");
    let almost = "y".repeat(511);
    assert_eq!(safe_context_field(&almost), almost);
    let full = "y".repeat(512);
    assert_eq!(safe_context_field(&full), format!("{full}..."));
}
