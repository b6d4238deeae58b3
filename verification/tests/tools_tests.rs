use aigis::tools::{
    add_tool, compose_system_prompt, extract_search_results, filter_search_results, find_tool,
    list_tools, remove_tool, tool_context, website_render_mode, DDGSearchTool, MathTool,
    RenderKind, SearchResult, ToolSpec, WebsiteTool,
};

fn registry() -> Vec<ToolSpec> {
    vec![
        ToolSpec {
            name: MathTool.name().to_string(),
            description: MathTool.description().to_string(),
        },
        ToolSpec {
            name: DDGSearchTool.name().to_string(),
            description: DDGSearchTool.description().to_string(),
        },
        ToolSpec {
            name: WebsiteTool.name().to_string(),
            description: WebsiteTool.description().to_string(),
        },
    ]
}

#[test]
fn builtin_tool_names() {
    assert_eq!(MathTool.name(), "calculator");
    assert_eq!(DDGSearchTool.name(), "ddg_search");
    assert_eq!(WebsiteTool.name(), "website");
}

#[test]
fn lookup_resolves_by_exact_name() {
    let tools = registry();
    assert_eq!(find_tool(&tools, "calculator"), Some(0));
    assert_eq!(find_tool(&tools, "website"), Some(2));
    assert_eq!(find_tool(&tools, "sandwich"), None);
    assert_eq!(find_tool(&tools, "calc"), None);
}

#[test]
fn listing_keeps_registration_order() {
    let names = list_tools(&registry());
    assert_eq!(names, vec!["calculator", "ddg_search", "website"]);
}

#[test]
fn catalog_advertises_every_tool() {
    let ctx = tool_context(&registry());
    assert!(ctx.starts_with("You have access to the following tools:\n"));
    assert!(ctx.contains("- calculator: "));
    assert!(ctx.contains("- ddg_search: "));
    assert!(ctx.contains("- website: "));
    assert!(ctx.contains("follow this exact format"));
    assert_eq!(tool_context(&Vec::new()), "");
}

#[test]
fn prompt_composition_appends_nonblank_prompts() {
    let tools = registry();
    let ctx = tool_context(&tools);
    let merged = compose_system_prompt(&tools, &Some("be nice".to_string()));
    assert_eq!(merged, format!("{}\n\nbe nice", ctx));
    // a blank prompt leaves the catalog alone
    assert_eq!(compose_system_prompt(&tools, &Some("   ".to_string())), ctx);
    assert_eq!(compose_system_prompt(&tools, &None), ctx);
}

#[test]
fn registry_registration_and_removal() {
    let mut tools = registry();
    add_tool(
        &mut tools,
        ToolSpec { name: "echo".to_string(), description: "repeats".to_string() },
    );
    assert_eq!(find_tool(&tools, "echo"), Some(3));
    assert!(remove_tool(&mut tools, "echo").is_ok());
    assert_eq!(find_tool(&tools, "echo"), None);
    assert_eq!(tools.len(), 3);
    assert_eq!(
        remove_tool(&mut tools, "echo").unwrap_err(),
        "Tool not found: echo"
    );
}

#[test]
fn search_results_without_title_or_link_are_dropped() {
    let results = vec![
        SearchResult { title: "A".into(), link: "https://a".into(), snippet: "sa".into() },
        SearchResult { title: "".into(), link: "https://b".into(), snippet: "sb".into() },
        SearchResult { title: "C".into(), link: "".into(), snippet: "sc".into() },
        SearchResult { title: "D".into(), link: "https://d".into(), snippet: "".into() },
    ];
    let kept = filter_search_results(results);
    assert_eq!(kept.len(), 2);
    assert_eq!(kept[0].title, "A");
    assert_eq!(kept[1].title, "D");
}

#[test]
fn website_render_modes() {
    assert_eq!(website_render_mode("html").unwrap(), RenderKind::Html);
    assert_eq!(website_render_mode("md").unwrap(), RenderKind::Markdown);
    assert_eq!(
        website_render_mode("pdf").unwrap_err(),
        "Invalid 'render' parameter, must be 'html' or 'md'"
    );
}

#[test]
fn search_results_are_extracted_from_the_page() {
    let body = "<div class=\"web-result\"><a class=\"result__a\" href=\"/x\">First <b>Result</b></a><a class=\"result__url\" href=\"/y\">\n  https://one.example\n</a><a class=\"result__snippet\">about <i>stuff</i></a></div><div class=\"web-result\"><a class=\"result__a\" href=\"/x2\">Second</a><a class=\"result__url\" href=\"/y2\">https://two.example</a></div>";
    let results = extract_search_results(body);
    assert_eq!(results.len(), 2);
    assert_eq!(results[0].title, "First Result");
    assert_eq!(results[0].link, "https://one.example");
    assert_eq!(results[0].snippet, "about stuff");
    assert_eq!(results[1].title, "Second");
    assert_eq!(results[1].link, "https://two.example");
    assert_eq!(results[1].snippet, "");
    // a page without result anchors yields nothing
    assert!(extract_search_results("<html>no results</html>").is_empty());
}
