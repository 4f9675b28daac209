use arcee_code::model_router::Intensity;
use arcee_code::output::OutputFormat;

#[test]
fn intensity_names_read_back_in_any_case() {
    for i in [Intensity::High, Intensity::Medium, Intensity::Low] {
        assert_eq!(Intensity::from_str(i.as_str()), Some(i));
        assert_eq!(Intensity::from_str(&i.as_str().to_uppercase()), Some(i));
    }
    assert_eq!(Intensity::from_str("Medium"), Some(Intensity::Medium));
    assert_eq!(Intensity::from_str("max"), None);
    assert_eq!(Intensity::from_str(""), None);
}

#[test]
fn output_format_names_ignore_case() {
    assert_eq!(OutputFormat::from_str_opt("JSON"), OutputFormat::Json);
    assert_eq!(OutputFormat::from_str_opt("Stream-Json"), OutputFormat::StreamJson);
    assert_eq!(OutputFormat::from_str_opt("stream_json"), OutputFormat::StreamJson);
    assert_eq!(OutputFormat::from_str_opt("xml"), OutputFormat::Text);
}
