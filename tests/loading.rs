use figment::error::Kind;
use figment::value::{Dict, Value};
use load_config::{
    after_extraction, bootstrap_outcome, decode_file, default_file_target, defaults_fragment,
    file_fragment, merge_layers, CreateDefaultFileError, Entry, Error, LoadStep, Source,
    SourceFile,
};

fn entry(key: &str, value: Value) -> Entry {
    (key.to_string(), value)
}

fn value_of(frag: &[Entry], key: &str) -> Option<Value> {
    frag.iter().find(|(k, _)| k == key).map(|(_, v)| v.clone())
}

/// A number's value, whether figment holds it signed or unsigned.
fn number_of(v: &Value) -> Option<i128> {
    v.to_i128().or(v.to_u128().map(|u| u as i128))
}

/// Two fragments hold the same settings, numbers compared by their value
/// whatever their width or signedness.
fn same_settings(a: &[Entry], b: &[Entry]) -> bool {
    a.len() == b.len()
        && a.iter().all(|(k, v)| match value_of(b, k) {
            Some(w) => v == &w || (number_of(v).is_some() && number_of(v) == number_of(&w)),
            None => false,
        })
}

fn missing_field_error(name: &'static str) -> figment::Error {
    figment::Error::from(Kind::MissingField(name.into()))
}

fn not_found() -> std::io::Error {
    std::io::Error::new(std::io::ErrorKind::NotFound, "no such file")
}

fn default_dict() -> Value {
    let mut d = Dict::new();
    d.insert("setting1".to_string(), Value::from(false));
    d.insert("setting2".to_string(), Value::from(0i32));
    d.insert("setting3".to_string(), Value::from("amogus".to_string()));
    Value::from(d)
}

#[test]
fn env_then_toml_file_takes_file_setting() {
    let env: Result<Vec<Entry>, Error> = Ok(vec![entry("UNRELATED", Value::from("x"))]);
    let file = SourceFile::Toml("./c.toml".to_string());
    let toml = file_fragment(&file, Ok("setting1 = true".to_string()));
    let merged = merge_layers(vec![env, toml]).unwrap();
    assert_eq!(merged.len(), 2);
    assert!(value_of(&merged, "setting1") == Some(Value::from(true)));
    assert!(value_of(&merged, "setting2").is_none());
}

#[test]
fn missing_file_source_is_read_error() {
    let file = SourceFile::Toml("./missing.toml".to_string());
    let frag = file_fragment(&file, Err(not_found()));
    match merge_layers(vec![frag]) {
        Err(Error::ReadFile { filepath, source }) => {
            assert_eq!(filepath, "./missing.toml");
            assert_eq!(source.kind(), std::io::ErrorKind::NotFound);
        }
        other => panic!("unexpected merge {:?}", other),
    }
}

#[test]
fn defaults_source_loads_whatever_the_fallback() {
    let defaults = defaults_fragment(default_dict()).unwrap();
    assert_eq!(defaults.len(), 3);
    assert!(value_of(&defaults, "setting2") == Some(Value::from(0i32)));
    let fallback = Some(SourceFile::Json("./cfg/config.json".to_string()));
    match after_extraction(Ok(7u32), fallback, false) {
        LoadStep::Loaded(v) => assert_eq!(v, 7),
        other => panic!("unexpected step {:?}", other),
    }
}

#[test]
fn earlier_source_wins() {
    let first = Ok(vec![entry("a", Value::from(1i32)), entry("b", Value::from(2i32))]);
    let second = Ok(vec![entry("a", Value::from(10i32)), entry("c", Value::from(30i32))]);
    let merged = merge_layers(vec![first, second]).unwrap();
    assert_eq!(merged.len(), 3);
    assert!(value_of(&merged, "a") == Some(Value::from(1i32)));
    assert!(value_of(&merged, "b") == Some(Value::from(2i32)));
    assert!(value_of(&merged, "c") == Some(Value::from(30i32)));
}

#[test]
fn later_source_fills_what_earlier_lacks() {
    let file = SourceFile::Yaml("./c.yaml".to_string());
    let yaml = file_fragment(&file, Ok("setting2: 5\nsetting3: yaml".to_string()));
    let defaults = defaults_fragment(default_dict()).map_err(Error::Figment);
    let merged = merge_layers(vec![yaml, defaults]).unwrap();
    assert_eq!(merged.len(), 3);
    assert!(value_of(&merged, "setting1") == Some(Value::from(false)));
    assert_eq!(value_of(&merged, "setting2").and_then(|v| number_of(&v)), Some(5));
    assert!(value_of(&merged, "setting3") == Some(Value::from("yaml")));
}

#[test]
fn no_sources_merge_to_nothing() {
    let merged = merge_layers(Vec::new()).unwrap();
    assert!(merged.is_empty());
}

#[test]
fn first_failing_source_is_reported() {
    let ok = Ok(vec![entry("a", Value::from(1i32))]);
    let first = Err(Error::Figment(figment::Error::from("first".to_string())));
    let second = Err(Error::Figment(figment::Error::from("second".to_string())));
    match merge_layers(vec![ok, first, second]) {
        Err(Error::Figment(e)) => assert!(e.to_string().contains("first")),
        other => panic!("unexpected merge {:?}", other),
    }
}

#[test]
fn decoded_file_gives_its_fields() {
    let toml = SourceFile::Toml("./c.toml".to_string());
    let frag = decode_file(&toml, "b = 1\na = \"x\"").unwrap();
    let keys: Vec<&str> = frag.iter().map(|(k, _)| k.as_str()).collect();
    assert_eq!(keys, vec!["a", "b"]);
}

#[test]
fn malformed_file_is_decode_error() {
    let file = SourceFile::Json("./c.json".to_string());
    let frag = file_fragment(&file, Ok("{ not json".to_string()));
    assert!(matches!(frag, Err(Error::Figment(_))));
}

#[test]
fn defaults_must_be_a_dictionary() {
    assert!(defaults_fragment(Value::from(3i32)).is_err());
    let frag = defaults_fragment(default_dict()).unwrap();
    let keys: Vec<&str> = frag.iter().map(|(k, _)| k.as_str()).collect();
    assert_eq!(keys, vec!["setting1", "setting2", "setting3"]);
}

#[test]
fn malformed_text_fails_to_decode() {
    let toml = SourceFile::Toml("./c.toml".to_string());
    assert!(decode_file(&toml, "setting1 = = true").is_err());
    let json = SourceFile::Json("./c.json".to_string());
    assert!(decode_file(&json, "{\"setting1\": ").is_err());
    assert!(decode_file(&json, "{\"setting1\": true}").is_ok());
}

#[test]
fn missing_field_creates_default_file() {
    let fallback = SourceFile::Toml("./cfg/config.toml".to_string());
    let step = after_extraction::<u32>(Err(missing_field_error("setting1")), Some(fallback.clone()), false);
    match step {
        LoadStep::CreateDefault(s) => assert_eq!(s, fallback),
        other => panic!("unexpected step {:?}", other),
    }
}

#[test]
fn existing_fallback_file_is_kept() {
    let fallback = Some(SourceFile::Toml("./cfg/config.toml".to_string()));
    match after_extraction::<u32>(Err(missing_field_error("setting1")), fallback, true) {
        LoadStep::Fail(Error::Figment(e)) => assert!(e.missing()),
        other => panic!("unexpected step {:?}", other),
    }
}

#[test]
fn other_failures_never_bootstrap() {
    let fallback = Some(SourceFile::Toml("./cfg/config.toml".to_string()));
    let e = figment::Error::from("invalid type".to_string());
    match after_extraction::<u32>(Err(e), fallback, false) {
        LoadStep::Fail(Error::Figment(e)) => assert!(!e.missing()),
        other => panic!("unexpected step {:?}", other),
    }
}

#[test]
fn missing_field_without_fallback_fails() {
    match after_extraction::<u32>(Err(missing_field_error("setting1")), None, false) {
        LoadStep::Fail(Error::Figment(e)) => assert!(e.missing()),
        other => panic!("unexpected step {:?}", other),
    }
}

#[test]
fn bootstrap_happens_once() {
    let fallback = SourceFile::Yaml("./cfg/config.yaml".to_string());
    let first = after_extraction::<u32>(Err(missing_field_error("a")), Some(fallback.clone()), false);
    assert!(matches!(first, LoadStep::CreateDefault(_)));
    let second = after_extraction::<u32>(Err(missing_field_error("a")), Some(fallback), true);
    assert!(matches!(second, LoadStep::Fail(Error::Figment(_))));
}

#[test]
fn default_file_target_cases() {
    let fallback = Some(SourceFile::Json("./c.json".to_string()));
    assert_eq!(default_file_target(true, fallback.clone(), false), fallback);
    assert_eq!(default_file_target(true, fallback.clone(), true), None);
    assert_eq!(default_file_target(false, fallback.clone(), false), None);
    assert_eq!(default_file_target(true, None, false), None);
}

#[test]
fn bootstrap_outcome_reports_creation() {
    match bootstrap_outcome("./cfg/config.toml".to_string(), Ok(())) {
        Error::CreatedDefaultFile { filepath } => assert_eq!(filepath, "./cfg/config.toml"),
        other => panic!("unexpected error {:?}", other),
    }
}

#[test]
fn bootstrap_outcome_reports_io_failure() {
    let failure = CreateDefaultFileError::StdIo {
        filepath: "./cfg/config.toml".to_string(),
        source: std::io::Error::new(std::io::ErrorKind::AlreadyExists, "exists"),
    };
    match bootstrap_outcome("./cfg/config.toml".to_string(), Err(failure)) {
        Error::CreateDefaultFile(CreateDefaultFileError::StdIo { filepath, source }) => {
            assert_eq!(filepath, "./cfg/config.toml");
            assert_eq!(source.kind(), std::io::ErrorKind::AlreadyExists);
        }
        other => panic!("unexpected error {:?}", other),
    }
}

#[test]
fn defaults_round_trip_json() {
    let defaults = default_dict();
    let text = serde_json::to_string_pretty(&defaults).unwrap();
    let decoded = decode_file(&SourceFile::Json("./c.json".to_string()), &text).unwrap();
    assert!(same_settings(&decoded, &defaults_fragment(defaults).unwrap()));
}

#[test]
fn defaults_round_trip_toml() {
    let defaults = default_dict();
    let text = toml::to_string_pretty(&defaults).unwrap();
    let decoded = decode_file(&SourceFile::Toml("./c.toml".to_string()), &text).unwrap();
    assert!(same_settings(&decoded, &defaults_fragment(defaults).unwrap()));
}

#[test]
fn defaults_round_trip_yaml() {
    let defaults = default_dict();
    let text = serde_yaml::to_string(&defaults).unwrap();
    let decoded = decode_file(&SourceFile::Yaml("./c.yaml".to_string()), &text).unwrap();
    assert!(same_settings(&decoded, &defaults_fragment(defaults).unwrap()));
}

#[test]
fn filepath_of_each_format() {
    assert_eq!(SourceFile::Json("a.json".to_string()).filepath(), "a.json");
    assert_eq!(SourceFile::Toml("b.toml".to_string()).filepath(), "b.toml");
    assert_eq!(SourceFile::Yaml("c.yaml".to_string()).filepath(), "c.yaml");
}

#[test]
fn sources_compare_by_value() {
    let a = Source::File(SourceFile::Toml("./c.toml".to_string()));
    assert_eq!(a.clone(), a);
    assert_ne!(a, Source::File(SourceFile::Json("./c.toml".to_string())));
    assert_ne!(Source::Env, Source::ConfigDefault);
}
