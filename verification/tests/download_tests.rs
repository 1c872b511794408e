use insight_reader::voices::download::get_model_directory;

#[test]
fn test_get_model_directory() {
    let result = get_model_directory("test_voice");
    assert!(result.is_ok());
}
