use phi_agent::prompt::{
    build_system_prompt, build_system_prompt_cn, build_system_prompt_with_fragments, compose_fragments,
    replace_first_occurrence, sort_by_priority, CoreInstructionsFragment, Fragment, MemoryFragment,
    NetworkEnvironmentFragment,
};

fn fragment(name: &str, priority: i32, content: Option<&str>) -> Fragment {
    Fragment { name: name.to_string(), priority, content: content.map(|c| c.to_string()) }
}

#[test]
fn prompt_test_build_system_prompt() {
    let prompt = build_system_prompt();
    assert!(prompt.contains("versatile AI assistant"));
    assert!(prompt.contains("[Conversation Type Detection]"));
    assert!(prompt.contains("[Execution Guidelines]"));
    assert!(prompt.contains("[Wrap-Up]"));
    // Memory instructions are appended after a separator.
    assert!(prompt.contains("\n---\n"));
}

#[test]
fn prompt_test_build_system_prompt_cn() {
    let prompt = build_system_prompt_cn();
    assert!(prompt.contains("versatile AI assistant"));
    assert!(prompt.contains("[Network Environment]"));
    assert!(prompt.contains("mainland China"));
    assert!(prompt.contains("Baidu"));
    assert!(prompt.contains("gitee.com"));
}

#[test]
fn mod_test_build_system_prompt() {
    let prompt = build_system_prompt();
    assert!(prompt.contains("versatile AI assistant"));
    assert!(prompt.contains("[Conversation Type Detection]"));
    assert!(prompt.contains("[Execution Guidelines]"));
    assert!(prompt.contains("[Wrap-Up]"));
    assert!(prompt.contains("\n---\n"));
}

#[test]
fn mod_test_build_system_prompt_cn() {
    let prompt = build_system_prompt_cn();
    assert!(prompt.contains("versatile AI assistant"));
    assert!(prompt.contains("[Network Environment]"));
    assert!(prompt.contains("mainland China"));
    assert!(prompt.contains("Baidu"));
    assert!(prompt.contains("gitee.com"));
}

#[test]
fn test_build_system_prompt_with_custom_fragments() {
    let extra = vec![fragment("custom", 200, Some("[Custom Section]"))];
    let prompt = build_system_prompt_with_fragments(extra, false);
    assert!(prompt.contains("[Custom Section]"));
    assert!(prompt.contains("versatile AI assistant"));
}

#[test]
fn test_backward_compat_output_matches_original() {
    let prompt = build_system_prompt();
    let original_sections = [
        "You are a versatile AI assistant",
        "[Role]",
        "[Conversation Type Detection]",
        "[Thinking Approach]",
        "[Execution Guidelines]",
        "[File Operation Guidelines]",
        "[Wrap-Up]",
        "## Memory",
        "MEMORY.md",
    ];
    for section in &original_sections {
        assert!(prompt.contains(section), "Missing section: {}", section);
    }
}

#[test]
fn test_core_instructions_fragment() {
    let output = CoreInstructionsFragment.render().unwrap();
    assert!(output.contains("versatile AI assistant"));
    assert!(output.contains("[Conversation Type Detection]"));
    assert!(output.contains("[Execution Guidelines]"));
    assert!(output.contains("[Wrap-Up]"));
}

#[test]
fn test_memory_fragment() {
    let output = MemoryFragment.render().unwrap();
    assert!(output.contains("Memory"));
    assert!(output.contains("MEMORY.md"));
}

#[test]
fn test_network_environment_fragment() {
    let output = NetworkEnvironmentFragment.render().unwrap();
    assert!(output.contains("mainland China"));
    assert!(output.contains("Baidu"));
    assert!(output.contains("gitee.com"));
}

#[test]
fn test_all_fragments_compose() {
    let fragments = vec![
        CoreInstructionsFragment.fragment(),
        MemoryFragment.fragment(),
        NetworkEnvironmentFragment.fragment(),
    ];
    let result = compose_fragments(fragments);
    // Core (10) comes first, then Network (90), then Memory (95)
    let core_pos = result.find("versatile AI assistant").unwrap();
    let cn_pos = result.find("mainland China").unwrap();
    let mem_pos = result.find("MEMORY.md").unwrap();
    assert!(core_pos < cn_pos);
    assert!(cn_pos < mem_pos);
}

#[test]
fn test_fragment_names() {
    assert_eq!(CoreInstructionsFragment.name(), "core_instructions");
    assert_eq!(MemoryFragment.name(), "memory");
    assert_eq!(NetworkEnvironmentFragment.name(), "network_environment_cn");
}

#[test]
fn test_fragment_priorities() {
    assert_eq!(CoreInstructionsFragment.priority(), 10);
    assert_eq!(NetworkEnvironmentFragment.priority(), 90);
    assert_eq!(MemoryFragment.priority(), 95);
}

#[test]
fn test_build_system_prompt_non_empty() {
    let prompt = build_system_prompt();
    assert!(!prompt.is_empty(), "System prompt should not be empty");
    assert!(prompt.len() > 100, "System prompt should be substantial");
}

#[test]
fn test_build_system_prompt_cn_non_empty() {
    let prompt = build_system_prompt_cn();
    assert!(!prompt.is_empty(), "Chinese system prompt should not be empty");
}

#[test]
fn test_system_prompt_contains_memory_instructions() {
    let prompt = build_system_prompt();
    assert!(prompt.contains("## Memory"));
    assert!(prompt.contains(".phi/memory/"));
    assert!(prompt.contains("MEMORY.md"));
    assert!(prompt.contains("read_file"));
    assert!(prompt.contains("write_file"));
}

#[test]
fn test_system_prompt_cn_also_has_memory_instructions() {
    let prompt = build_system_prompt_cn();
    assert!(prompt.contains("## Memory"));
    assert!(prompt.contains("[Network Environment]"));
}

#[test]
fn test_build_system_prompt_structure() {
    let prompt = build_system_prompt();
    assert!(prompt.contains("[Role]"));
    assert!(prompt.contains("[Execution Guidelines]"));
    assert!(prompt.contains("[File Operation Guidelines]"));
    assert!(prompt.contains("## Memory"));
    let sections: Vec<&str> = prompt.split("\n---\n").collect();
    assert!(sections.len() >= 2);
}

// ── Composition ──

#[test]
fn compose_orders_by_priority_and_joins_with_blank_lines() {
    let fragments = vec![fragment("b", 20, Some("B")), fragment("a", 5, Some("A")), fragment("c", 30, Some("C"))];
    assert_eq!(compose_fragments(fragments), "A\n\nB\n\nC");
}

#[test]
fn compose_skips_fragments_without_content() {
    let fragments = vec![fragment("a", 1, Some("A")), fragment("none", 2, None), fragment("c", 3, Some("C"))];
    assert_eq!(compose_fragments(fragments), "A\n\nC");
}

#[test]
fn compose_keeps_insertion_order_for_equal_priorities() {
    let fragments = vec![fragment("x", 7, Some("first")), fragment("y", 7, Some("second")), fragment("z", 1, Some("zero"))];
    assert_eq!(compose_fragments(fragments), "zero\n\nfirst\n\nsecond");
    let sorted = sort_by_priority(vec![fragment("x", 7, None), fragment("y", 7, None), fragment("z", 1, None)]);
    let names: Vec<&str> = sorted.iter().map(|f| f.name.as_str()).collect();
    assert_eq!(names, vec!["z", "x", "y"]);
}

#[test]
fn compose_of_nothing_is_empty() {
    assert_eq!(compose_fragments(Vec::new()), "");
}

#[test]
fn prompt_is_core_then_separated_memory() {
    let core = CoreInstructionsFragment.render().unwrap();
    let memory = MemoryFragment.render().unwrap();
    assert_eq!(build_system_prompt(), format!("{}\n---\n\n{}", core, memory));
    let cn = NetworkEnvironmentFragment.render().unwrap();
    assert_eq!(build_system_prompt_cn(), format!("{}\n\n{}\n---\n\n{}", core, cn, memory));
}

#[test]
fn custom_fragment_is_placed_by_priority() {
    let prompt = build_system_prompt_with_fragments(vec![fragment("early", 50, Some("[Early]"))], false);
    let core_pos = prompt.find("[Role]").unwrap();
    let early_pos = prompt.find("[Early]").unwrap();
    let mem_pos = prompt.find("## Memory").unwrap();
    assert!(core_pos < early_pos && early_pos < mem_pos);
}

#[test]
fn replace_first_occurrence_replaces_only_the_first() {
    assert_eq!(replace_first_occurrence("a-b-c", "-", "+"), "a+b-c");
    assert_eq!(replace_first_occurrence("abc", "x", "y"), "abc");
    assert_eq!(replace_first_occurrence("abc", "", "_"), "_abc");
    assert_eq!(replace_first_occurrence("", "", "_"), "_");
}

#[test]
fn builtin_prompts_are_the_fragment_prompts_without_extras() {
    assert_eq!(build_system_prompt(), build_system_prompt_with_fragments(Vec::new(), false));
    assert_eq!(build_system_prompt_cn(), build_system_prompt_with_fragments(Vec::new(), true));
    assert_eq!(build_system_prompt(), build_system_prompt());
}
