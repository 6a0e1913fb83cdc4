use omdocker::daemon::{container_name, label_pair, memory_limit_bytes, option_lines, parse_port_spec, split_repo_tag};

#[test]
fn container_names_lose_their_slash() {
    assert_eq!(container_name(&Some(vec!["/web".to_string(), "/alias".to_string()])), "web");
    assert_eq!(container_name(&Some(vec![])), "");
    assert_eq!(container_name(&None), "");
}

#[test]
fn image_references_split_at_the_last_colon() {
    assert_eq!(split_repo_tag("nginx:1.25"), ("nginx".to_string(), "1.25".to_string()));
    assert_eq!(split_repo_tag("localhost:5000/app:dev"), ("localhost:5000/app".to_string(), "dev".to_string()));
    assert_eq!(split_repo_tag("<none>:<none>"), ("<none>".to_string(), "<none>".to_string()));
    assert_eq!(split_repo_tag("plain"), ("plain".to_string(), String::new()));
}

#[test]
fn option_lines_are_trimmed_and_non_empty() {
    assert_eq!(option_lines("A=1\n\n  B=2  \r\n"), vec!["A=1".to_string(), "B=2".to_string()]);
    assert!(option_lines("").is_empty());
}

#[test]
fn memory_limits_in_bytes() {
    assert_eq!(memory_limit_bytes("512m"), Some(512 * 1024 * 1024));
    assert_eq!(memory_limit_bytes(" 1G "), Some(1024 * 1024 * 1024));
    assert_eq!(memory_limit_bytes("64k"), Some(65536));
    assert_eq!(memory_limit_bytes("1000"), Some(1000));
    assert_eq!(memory_limit_bytes(""), None);
    assert_eq!(memory_limit_bytes("lots"), None);
    assert_eq!(memory_limit_bytes("9223372036854775807g"), None);
}

#[test]
fn port_specs() {
    let p = parse_port_spec("8080:80");
    assert_eq!(p.container, "80");
    assert_eq!(p.host.as_deref(), Some("8080"));
    assert_eq!(p.host_ip, None);
    let p = parse_port_spec("127.0.0.1:8080: 80 ");
    assert_eq!(p.container, "80");
    assert_eq!(p.host.as_deref(), Some("8080"));
    assert_eq!(p.host_ip.as_deref(), Some("127.0.0.1"));
    let p = parse_port_spec("443");
    assert_eq!(p.container, "443");
    assert!(p.host.is_none());
}

#[test]
fn label_lines() {
    assert_eq!(label_pair("app=shop=1"), Some(("app".to_string(), "shop=1".to_string())));
    assert_eq!(label_pair("novalue"), None);
    assert_eq!(label_pair("=x"), Some((String::new(), "x".to_string())));
}
