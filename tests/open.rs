use bunnylol::OpenCommand;

#[test]
fn test_open_command_fqdn() {
    assert_eq!(OpenCommand::process_args("open example.com"), "https://example.com");
}

#[test]
fn test_open_command_with_path() {
    assert_eq!(OpenCommand::process_args("open example.com/docs"), "https://example.com/docs");
}

#[test]
fn test_open_command_https_url() {
    assert_eq!(OpenCommand::process_args("open https://example.com"), "https://example.com");
}

#[test]
fn test_open_command_http_url() {
    assert_eq!(OpenCommand::process_args("open http://example.com"), "http://example.com");
}

#[test]
fn test_open_command_no_args() {
    assert_eq!(OpenCommand::process_args("open"), "https://");
}

#[test]
fn open_trims_surrounding_whitespace() {
    assert_eq!(OpenCommand::process_args("  open   example.com  "), "https://example.com");
}

#[test]
fn open_info_describes_command() {
    let info = OpenCommand::get_info();
    assert_eq!(info.bindings, vec!["open".to_string()]);
    assert_eq!(info.example, "open example.com");
}
