use pa_visualizer::options::{
    bar_modes, display_settings, dump_settings, framework_settings, grid_settings, lightning_settings, recorder_settings,
    render_output, script_settings, spectralizer_settings,
};
use pa_visualizer::settings::{
    bool_setting, integer_setting, parse_config, required_text_setting, resolve_bool, resolve_integer,
    resolve_required_text, resolve_text, resolve_u32, resolve_usize, text_setting, u32_setting, usize_setting,
    Problem, Setting,
};

fn config(text: &str) -> toml::Value {
    parse_config(text).expect("test configuration must parse")
}

#[test]
fn resolve_integer_uses_default_when_absent() {
    assert_eq!(resolve_integer(None, 2048), Ok(2048));
}

#[test]
fn resolve_integer_takes_present_value() {
    assert_eq!(resolve_integer(Some(Setting::Integer(4096)), 2048), Ok(4096));
}

#[test]
fn resolve_integer_rejects_other_kinds() {
    assert_eq!(resolve_integer(Some(Setting::Float), 1), Err(Problem::NotAnInteger));
    assert_eq!(resolve_integer(Some(Setting::Text("12".to_string())), 1), Err(Problem::NotAnInteger));
    assert_eq!(resolve_integer(Some(Setting::Boolean(true)), 1), Err(Problem::NotAnInteger));
}

#[test]
fn resolve_usize_wraps_negative_like_a_cast() {
    assert_eq!(resolve_usize(Some(Setting::Integer(-1)), 0), Ok(usize::MAX));
    assert_eq!(resolve_usize(Some(Setting::Integer(75)), 0), Ok(75));
}

#[test]
fn resolve_u32_truncates_like_a_cast() {
    assert_eq!(resolve_u32(Some(Setting::Integer(0x1_0000_0005)), 0), Ok(5));
    assert_eq!(resolve_u32(None, 48000), Ok(48000));
}

#[test]
fn resolve_bool_cases() {
    assert_eq!(resolve_bool(None, false), Ok(false));
    assert_eq!(resolve_bool(Some(Setting::Boolean(true)), false), Ok(true));
    assert_eq!(resolve_bool(Some(Setting::Integer(1)), false), Err(Problem::NotABoolean));
}

#[test]
fn resolve_text_cases() {
    assert_eq!(resolve_text(None, "data.m"), Ok("data.m".to_string()));
    assert_eq!(resolve_text(Some(Setting::Text("x.m".to_string())), "data.m"), Ok("x.m".to_string()));
    assert_eq!(resolve_text(Some(Setting::Array), "data.m"), Err(Problem::NotAString));
}

#[test]
fn resolve_required_text_cases() {
    assert_eq!(resolve_required_text(None), Err(Problem::Missing));
    assert_eq!(resolve_required_text(Some(Setting::Table)), Err(Problem::NotAString));
    assert_eq!(resolve_required_text(Some(Setting::Text("song.wav".to_string()))), Ok("song.wav".to_string()));
}

#[test]
fn parse_config_rejects_invalid_toml() {
    assert!(parse_config("WINDOW_SIZE = = 3").is_none());
    assert!(parse_config("").is_some());
}

#[test]
fn settings_read_from_parsed_document() {
    let c = config("WINDOW_SIZE = 4096\nDAMPEN = 0.9\nRENDER_MODE = true\nFILENAME = \"out.m\"\n");
    assert_eq!(integer_setting(&c, "WINDOW_SIZE", 2048), Ok(4096));
    assert_eq!(integer_setting(&c, "COLUMNS", 50), Ok(50));
    assert_eq!(integer_setting(&c, "DAMPEN", 1), Err(Problem::NotAnInteger));
    assert_eq!(usize_setting(&c, "WINDOW_SIZE", 2048), Ok(4096usize));
    assert_eq!(u32_setting(&c, "WINDOW_SIZE", 2048), Ok(4096u32));
    assert_eq!(bool_setting(&c, "RENDER_MODE", false), Ok(true));
    assert_eq!(bool_setting(&c, "WINDOW_SIZE", false), Err(Problem::NotABoolean));
    assert_eq!(text_setting(&c, "FILENAME", "data.m"), Ok("out.m".to_string()));
    assert_eq!(text_setting(&c, "PYTHON_SCRIPT", "visualizer.py"), Ok("visualizer.py".to_string()));
    assert_eq!(required_text_setting(&c, "RENDER_SOUNDFILE"), Err(Problem::Missing));
}

#[test]
fn nested_keys_are_not_top_level_settings() {
    let c = config("[ring]\nnum = 3\n");
    assert_eq!(integer_setting(&c, "num", 5), Ok(5));
    assert_eq!(integer_setting(&c, "ring", 5), Err(Problem::NotAnInteger));
}

#[test]
fn framework_defaults() {
    let s = framework_settings(&config("")).unwrap();
    assert_eq!(s.record_buffer_size, 8192);
    assert!(!s.render_mode);
}

#[test]
fn framework_reports_first_bad_key() {
    let e = framework_settings(&config("RECORD_BUFFER_SIZE = \"big\"\nRENDER_MODE = 1\n")).unwrap_err();
    assert_eq!(e.key, "RECORD_BUFFER_SIZE");
    assert_eq!(e.problem, Problem::NotAnInteger);
    let e = framework_settings(&config("RENDER_MODE = 1\n")).unwrap_err();
    assert_eq!(e.key, "RENDER_MODE");
    assert_eq!(e.problem, Problem::NotABoolean);
}

#[test]
fn render_output_requires_soundfile() {
    let e = render_output(&config("")).unwrap_err();
    assert_eq!(e.key, "RENDER_SOUNDFILE");
    assert_eq!(e.problem, Problem::Missing);
    let r = render_output(&config("RENDER_SOUNDFILE = \"a.wav\"\n")).unwrap();
    assert_eq!(r.soundfile, "a.wav");
    assert_eq!(r.output_directory, "render_frames");
}

#[test]
fn recorder_and_spectralizer_defaults() {
    let c = config("");
    let r = recorder_settings(&c).unwrap();
    assert_eq!((r.read_buffer_size, r.rate), (2048, 48000));
    let s = spectralizer_settings(&c).unwrap();
    assert_eq!((s.window_size, s.columns), (2048, 50));
    let s = spectralizer_settings(&config("COLUMNS = 75\n")).unwrap();
    assert_eq!((s.window_size, s.columns), (2048, 75));
}

#[test]
fn display_settings_use_caller_defaults() {
    let d = display_settings(&config(""), 20, 720, 1280).unwrap();
    assert_eq!((d.display_columns, d.window_height, d.window_width), (20, 720, 1280));
    let d = display_settings(&config("WINDOW_WIDTH = 640\n"), 50, 900, 900).unwrap();
    assert_eq!((d.display_columns, d.window_height, d.window_width), (50, 900, 640));
    let e = display_settings(&config("WINDOW_HEIGHT = true\n"), 50, 900, 900).unwrap_err();
    assert_eq!(e.key, "WINDOW_HEIGHT");
}

#[test]
fn bar_modes_default_off() {
    let m = bar_modes(&config("SIMPLE_SYMMETRIC_MODE = true\n")).unwrap();
    assert!(!m.right_channel && !m.right_channel_middle && !m.right_channel_color_offset && m.symmetric);
}

#[test]
fn grid_script_and_dump_defaults() {
    let c = config("");
    let g = grid_settings(&c).unwrap();
    assert_eq!(g.rows, 100);
    let l = lightning_settings(&c).unwrap();
    assert_eq!((l.strikes, l.points_max, l.lines_max), (10, 6, 8));
    let s = script_settings(&c).unwrap();
    assert_eq!((s.display_columns, s.script.as_str()), (20, "visualizer.py"));
    assert_eq!(dump_settings(&c).unwrap().filename, "data.m");
}

#[test]
fn lightning_settings_read_in_order() {
    let l = lightning_settings(&config("NA_LN_MAX = 3\nNA_LN_LMAX = 12\n")).unwrap();
    assert_eq!((l.strikes, l.points_max, l.lines_max), (3, 6, 12));
    let e = lightning_settings(&config("NA_LN_PMAX = 1.5\nNA_LN_LMAX = true\n")).unwrap_err();
    assert_eq!(e.key, "NA_LN_PMAX");
    assert_eq!(grid_settings(&config("NA_ROWS = \"many\"\n")).unwrap_err().key, "NA_ROWS");
}
