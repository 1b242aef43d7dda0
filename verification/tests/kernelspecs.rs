use runtimes::descriptor::{kernelspec_from_json, parse_kernelspec};
use runtimes::json::{parse_json, JsonValue};
use runtimes::kernelspecs::{JupyterKernelspec, LaunchCommand, LaunchError, Runtime};

fn strings(items: &[&str]) -> Vec<String> {
    items.iter().map(|item| item.to_string()).collect()
}

fn runtime(argv: &[&str], env: Option<Vec<(String, String)>>) -> Runtime {
    Runtime {
        name: "python".to_string(),
        path: "/jupyter/kernels/python".to_string(),
        spec: JupyterKernelspec {
            argv: strings(argv),
            display_name: "Python 3".to_string(),
            language: "python".to_string(),
            env,
        },
    }
}

#[test]
fn command_substitutes_the_connection_file() {
    let runtime = runtime(&["python3", "-m", "ipykernel_launcher", "-f", "{connection_file}"], None);
    let command = runtime.command("/tmp/conn.json").unwrap();
    assert_eq!(command.program, "python3");
    assert_eq!(command.args, strings(&["-m", "ipykernel_launcher", "-f", "/tmp/conn.json"]));
    assert_eq!(command.envs, Vec::<(String, String)>::new());
}

#[test]
fn command_rejects_empty_argv() {
    assert_eq!(runtime(&[], None).command("/tmp/conn.json"), Err(LaunchError::EmptyArgv));
}

#[test]
fn command_rejects_single_token() {
    assert_eq!(runtime(&["python3"], None).command("/tmp/conn.json"), Err(LaunchError::InvalidArgv));
    assert_eq!(
        runtime(&["{connection_file}"], None).command("/tmp/conn.json"),
        Err(LaunchError::InvalidArgv)
    );
}

#[test]
fn command_rejects_argv_without_placeholder() {
    assert_eq!(
        runtime(&["python3", "-m", "ipykernel_launcher"], None).command("/tmp/conn.json"),
        Err(LaunchError::MissingConnectionFilePlaceholder)
    );
    assert_eq!(
        runtime(&["python3", "{connection_file}x"], None).command("/tmp/conn.json"),
        Err(LaunchError::MissingConnectionFilePlaceholder)
    );
    assert_eq!(
        runtime(&["python3", "-f={connection_file}"], None).command("/tmp/conn.json"),
        Err(LaunchError::MissingConnectionFilePlaceholder)
    );
}

#[test]
fn command_substitutes_every_occurrence() {
    let runtime = runtime(&["k", "{connection_file}", "--again", "{connection_file}"], None);
    let command = runtime.command("c.json").unwrap();
    assert_eq!(command.program, "k");
    assert_eq!(command.args, strings(&["c.json", "--again", "c.json"]));
}

#[test]
fn command_keeps_the_program_as_it_is() {
    let runtime = runtime(&["{connection_file}", "run"], None);
    assert_eq!(
        runtime.command("c.json"),
        Ok(LaunchCommand {
            program: "{connection_file}".to_string(),
            args: strings(&["run"]),
            envs: vec![],
        })
    );
}

#[test]
fn command_hands_on_the_environment() {
    let env = vec![
        ("PYTHONUNBUFFERED".to_string(), "1".to_string()),
        ("LANG".to_string(), "C".to_string()),
    ];
    let runtime = runtime(&["python3", "{connection_file}"], Some(env.clone()));
    let command = runtime.command("c.json").unwrap();
    assert_eq!(command.args, strings(&["c.json"]));
    assert_eq!(command.envs, env);
}

#[test]
fn launch_errors_name_the_kernel() {
    assert_eq!(LaunchError::EmptyArgv.message("python"), "Empty argv in kernelspec python");
    assert_eq!(LaunchError::InvalidArgv.message("deno"), "Invalid argv in kernelspec deno");
    assert_eq!(
        LaunchError::MissingConnectionFilePlaceholder.message("ir"),
        "Missing 'connection_file' in argv in kernelspec ir"
    );
    assert_eq!(LaunchError::EmptyArgv.message(""), "Empty argv in kernelspec ");
}

#[test]
fn parse_json_rebuilds_the_document() {
    let json = parse_json(r#"{"b": [1, "two", null, true, {"x": -2.5}], "a": "text"}"#).unwrap();
    assert_eq!(
        json,
        JsonValue::Object(vec![
            ("a".to_string(), JsonValue::Text("text".to_string())),
            (
                "b".to_string(),
                JsonValue::Array(vec![
                    JsonValue::Number("1".to_string()),
                    JsonValue::Text("two".to_string()),
                    JsonValue::Null,
                    JsonValue::Bool(true),
                    JsonValue::Object(vec![("x".to_string(), JsonValue::Number("-2.5".to_string()))]),
                ])
            ),
        ])
    );
}

#[test]
fn parse_json_rejects_what_is_no_document() {
    assert_eq!(parse_json(""), None);
    assert_eq!(parse_json("{"), None);
    assert_eq!(parse_json(r#"{"argv": ["a",]}"#), None);
    assert_eq!(parse_json("{} {}"), None);
}

#[test]
fn json_lookups() {
    let json = parse_json(r#"{"argv": ["a", "b"], "env": {"K": "V"}, "n": 3}"#).unwrap();
    assert_eq!(json.get("argv").unwrap().as_texts(), Some(strings(&["a", "b"])));
    assert_eq!(json.get("argv").unwrap().as_text(), None);
    assert_eq!(
        json.get("env").unwrap().as_text_members(),
        Some(vec![("K".to_string(), "V".to_string())])
    );
    assert_eq!(json.get("n").unwrap().as_text(), None);
    assert_eq!(json.get("missing"), None);
    assert_eq!(json.get("argv").unwrap().get("argv"), None);
    assert_eq!(JsonValue::Text("t".to_string()).as_text(), Some("t".to_string()));
    assert_eq!(parse_json(r#"["a", 1]"#).unwrap().as_texts(), None);
    assert_eq!(parse_json(r#"{"K": 1}"#).unwrap().as_text_members(), None);
    assert_eq!(parse_json("[]").unwrap().as_texts(), Some(vec![]));
}

#[test]
fn text_members_go_by_different_names() {
    let text = |text: &str| JsonValue::Text(text.to_string());
    let twice = JsonValue::Object(vec![
        ("A".to_string(), text("1")),
        ("B".to_string(), text("2")),
        ("A".to_string(), text("3")),
    ]);
    assert_eq!(twice.as_text_members(), None);
    assert_eq!(twice.get("A"), Some(&text("1")));
    let once = JsonValue::Object(vec![("A".to_string(), text("1")), ("a".to_string(), text("1"))]);
    assert_eq!(
        once.as_text_members(),
        Some(vec![("A".to_string(), "1".to_string()), ("a".to_string(), "1".to_string())])
    );
    let descriptor = JsonValue::Object(vec![
        ("argv".to_string(), JsonValue::Array(vec![text("k")])),
        ("env".to_string(), twice),
    ]);
    assert_eq!(kernelspec_from_json(&descriptor), None);
}

#[test]
fn descriptor_keeps_the_last_of_a_name_written_twice() {
    let spec = parse_kernelspec(r#"{"argv": ["a"], "argv": ["b"], "env": {"A": "1", "A": "2"}}"#);
    assert_eq!(
        spec,
        Some(JupyterKernelspec {
            argv: strings(&["b"]),
            display_name: String::new(),
            language: String::new(),
            env: Some(vec![("A".to_string(), "2".to_string())]),
        })
    );
}

#[test]
fn descriptor_with_every_member() {
    let spec = parse_kernelspec(
        r#"{
            "display_name": "Python 3",
            "language": "python",
            "argv": ["python3", "-m", "ipykernel_launcher", "-f", "{connection_file}"],
            "env": {"A": "1"}
        }"#,
    );
    assert_eq!(
        spec,
        Some(JupyterKernelspec {
            argv: strings(&["python3", "-m", "ipykernel_launcher", "-f", "{connection_file}"]),
            display_name: "Python 3".to_string(),
            language: "python".to_string(),
            env: Some(vec![("A".to_string(), "1".to_string())]),
        })
    );
}

#[test]
fn descriptor_needs_only_argv() {
    assert_eq!(
        parse_kernelspec(r#"{"argv": ["deno", "{connection_file}"]}"#),
        Some(JupyterKernelspec {
            argv: strings(&["deno", "{connection_file}"]),
            display_name: String::new(),
            language: String::new(),
            env: None,
        })
    );
    assert_eq!(
        parse_kernelspec(r#"{"argv": [], "env": null, "metadata": {"debugger": true}}"#),
        Some(JupyterKernelspec {
            argv: vec![],
            display_name: String::new(),
            language: String::new(),
            env: None,
        })
    );
    assert_eq!(
        parse_kernelspec(r#"{"argv": ["x"], "env": {}}"#).unwrap().env,
        Some(vec![])
    );
}

#[test]
fn descriptor_is_malformed() {
    assert_eq!(parse_kernelspec("not json"), None);
    assert_eq!(parse_kernelspec(r#"["python3", "{connection_file}"]"#), None);
    assert_eq!(parse_kernelspec(r#"{"display_name": "Python 3", "language": "python"}"#), None);
    assert_eq!(parse_kernelspec(r#"{"argv": "python3 {connection_file}"}"#), None);
    assert_eq!(parse_kernelspec(r#"{"argv": ["python3", 3]}"#), None);
    assert_eq!(parse_kernelspec(r#"{"argv": null}"#), None);
    assert_eq!(parse_kernelspec(r#"{"argv": ["a"], "display_name": 3}"#), None);
    assert_eq!(parse_kernelspec(r#"{"argv": ["a"], "display_name": null}"#), None);
    assert_eq!(parse_kernelspec(r#"{"argv": ["a"], "language": ["python"]}"#), None);
    assert_eq!(parse_kernelspec(r#"{"argv": ["a"], "env": {"A": 1}}"#), None);
    assert_eq!(parse_kernelspec(r#"{"argv": ["a"], "env": ["A=1"]}"#), None);
}

#[test]
fn descriptor_from_a_value_written_by_hand() {
    let json = JsonValue::Object(vec![
        ("name".to_string(), JsonValue::Text("ignored".to_string())),
        (
            "argv".to_string(),
            JsonValue::Array(vec![
                JsonValue::Text("k".to_string()),
                JsonValue::Text("{connection_file}".to_string()),
            ]),
        ),
        ("language".to_string(), JsonValue::Text("k".to_string())),
    ]);
    assert_eq!(
        kernelspec_from_json(&json),
        Some(JupyterKernelspec {
            argv: strings(&["k", "{connection_file}"]),
            display_name: String::new(),
            language: "k".to_string(),
            env: None,
        })
    );
    assert_eq!(kernelspec_from_json(&JsonValue::Null), None);
    assert_eq!(kernelspec_from_json(&JsonValue::Array(vec![])), None);
}
