use lian::types::UpdateOutput;

#[test]
fn combined_output_joins_both_streams() {
    let out = UpdateOutput {
        stdout: "line1\nline2\n".to_string(),
        stderr: "warning".to_string(),
        success: true,
    };
    assert_eq!(out.combined_output(), "line1\nline2\n\nwarning");
    let empty = UpdateOutput { stdout: String::new(), stderr: String::new(), success: false };
    assert_eq!(empty.combined_output(), "\n");
}
