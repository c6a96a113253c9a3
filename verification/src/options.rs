use vstd::prelude::*;
use crate::settings::{
    bool_or, bool_setting, config_entry, required_text, required_text_setting, text_or, text_setting,
    u32_or, u32_setting, usize_or, usize_setting, Problem, SettingEntry,
};

verus! {

/// A setting that could not be used, with the key it was read from.
#[derive(Debug)]
pub struct SettingError {
    pub key: String,
    pub problem: Problem,
}

/// `r` is the failure `e` of the setting under `key`.
pub open spec fn fails_with<T>(r: Result<T, Problem>, e: SettingError, key: Seq<char>) -> bool {
    &&& r matches Err(p)
    &&& e.problem == p
    &&& e.key@ == key
}

/// Attaches the key to the outcome of reading one setting.
fn keyed<T>(key: &str, r: Result<T, Problem>) -> (out: Result<T, SettingError>)
    ensures
        r matches Ok(v) ==> out == Ok::<T, SettingError>(v),
        r is Err ==> (out matches Err(e) && fails_with(r, e, key@)),
{
    match r {
        Ok(v) => Ok(v),
        Err(p) => Err(SettingError { key: key.to_owned(), problem: p }),
    }
}

/// Settings of the framework itself.
#[derive(Debug, Clone, Copy)]
pub struct FrameworkSettings {
    /// Capacity of the ring buffer between recorder and spectralizer.
    pub record_buffer_size: usize,
    /// Render a video frame by frame instead of running live.
    pub render_mode: bool,
}

pub open spec fn record_buffer_size_of(config: toml::Value) -> Result<usize, Problem> {
    usize_or(config_entry(config, "RECORD_BUFFER_SIZE"@), 8192)
}

pub open spec fn render_mode_of(config: toml::Value) -> Result<bool, Problem> {
    bool_or(config_entry(config, "RENDER_MODE"@), false)
}

/// Reads `RECORD_BUFFER_SIZE` (default 8192) and `RENDER_MODE` (default
/// false), in that order.
pub fn framework_settings(config: &toml::Value) -> (r: Result<FrameworkSettings, SettingError>)
    ensures
        r is Ok <==> record_buffer_size_of(*config) is Ok && render_mode_of(*config) is Ok,
        r matches Ok(s) ==> {
            &&& record_buffer_size_of(*config) == Ok::<usize, Problem>(s.record_buffer_size)
            &&& render_mode_of(*config) == Ok::<bool, Problem>(s.render_mode)
        },
        r matches Err(e) ==> {
            ||| fails_with(record_buffer_size_of(*config), e, "RECORD_BUFFER_SIZE"@)
            ||| record_buffer_size_of(*config) is Ok && fails_with(render_mode_of(*config), e, "RENDER_MODE"@)
        },
{
    let record_buffer_size = match keyed("RECORD_BUFFER_SIZE", usize_setting(config, "RECORD_BUFFER_SIZE", 8192)) {
        Ok(v) => v,
        Err(e) => { return Err(e); },
    };
    let render_mode = match keyed("RENDER_MODE", bool_setting(config, "RENDER_MODE", false)) {
        Ok(v) => v,
        Err(e) => { return Err(e); },
    };
    Ok(FrameworkSettings { record_buffer_size, render_mode })
}

/// Where a rendered video comes from and goes to.
#[derive(Debug)]
pub struct RenderOutput {
    /// Sound file that is played back and analysed.
    pub soundfile: String,
    /// Directory that receives the frames.
    pub output_directory: String,
}

pub open spec fn render_output_soundfile(config: toml::Value) -> Result<Seq<char>, Problem> {
    required_text(config_entry(config, "RENDER_SOUNDFILE"@))
}

pub open spec fn render_output_output_directory(config: toml::Value) -> Result<Seq<char>, Problem> {
    text_or(config_entry(config, "RENDER_OUTPUT_DIRECTORY"@), "render_frames"@)
}

/// Reads `RENDER_SOUNDFILE` (required) and `RENDER_OUTPUT_DIRECTORY` (default
/// "render_frames"), in that order.
pub fn render_output(config: &toml::Value) -> (r: Result<RenderOutput, SettingError>)
    ensures
        r is Ok <==> render_output_soundfile(*config) is Ok && render_output_output_directory(*config) is Ok,
        r matches Ok(s) ==> {
            &&& render_output_soundfile(*config) == Ok::<Seq<char>, Problem>(s.soundfile@)
            &&& render_output_output_directory(*config) == Ok::<Seq<char>, Problem>(s.output_directory@)
        },
        r matches Err(e) ==> {
            ||| fails_with(render_output_soundfile(*config), e, "RENDER_SOUNDFILE"@)
            ||| render_output_soundfile(*config) is Ok && fails_with(render_output_output_directory(*config), e, "RENDER_OUTPUT_DIRECTORY"@)
        },
{
    let soundfile = match keyed("RENDER_SOUNDFILE", required_text_setting(config, "RENDER_SOUNDFILE")) {
        Ok(v) => v,
        Err(e) => {
            return Err(e);
        },
    };
    let output_directory = match keyed("RENDER_OUTPUT_DIRECTORY", text_setting(config, "RENDER_OUTPUT_DIRECTORY", "render_frames")) {
        Ok(v) => v,
        Err(e) => {
            return Err(e);
        },
    };
    Ok(RenderOutput { soundfile, output_directory })
}

/// Settings of the recording thread.
#[derive(Debug)]
pub struct RecorderSettings {
    /// Samples read from the sound server at a time.
    pub read_buffer_size: usize,
    /// Sample rate in Hz.
    pub rate: u32,
}

pub open spec fn recorder_settings_read_buffer_size(config: toml::Value) -> Result<usize, Problem> {
    usize_or(config_entry(config, "RECORD_READ_BUFFER_SIZE"@), 2048)
}

pub open spec fn recorder_settings_rate(config: toml::Value) -> Result<u32, Problem> {
    u32_or(config_entry(config, "RECORD_RATE"@), 48000)
}

/// Reads `RECORD_READ_BUFFER_SIZE` (default 2048) and `RECORD_RATE` (default
/// 48000), in that order.
pub fn recorder_settings(config: &toml::Value) -> (r: Result<RecorderSettings, SettingError>)
    ensures
        r is Ok <==> recorder_settings_read_buffer_size(*config) is Ok && recorder_settings_rate(*config) is Ok,
        r matches Ok(s) ==> {
            &&& recorder_settings_read_buffer_size(*config) == Ok::<usize, Problem>(s.read_buffer_size)
            &&& recorder_settings_rate(*config) == Ok::<u32, Problem>(s.rate)
        },
        r matches Err(e) ==> {
            ||| fails_with(recorder_settings_read_buffer_size(*config), e, "RECORD_READ_BUFFER_SIZE"@)
            ||| recorder_settings_read_buffer_size(*config) is Ok && fails_with(recorder_settings_rate(*config), e, "RECORD_RATE"@)
        },
{
    let read_buffer_size = match keyed("RECORD_READ_BUFFER_SIZE", usize_setting(config, "RECORD_READ_BUFFER_SIZE", 2048)) {
        Ok(v) => v,
        Err(e) => {
            return Err(e);
        },
    };
    let rate = match keyed("RECORD_RATE", u32_setting(config, "RECORD_RATE", 48000)) {
        Ok(v) => v,
        Err(e) => {
            return Err(e);
        },
    };
    Ok(RecorderSettings { read_buffer_size, rate })
}

/// Integer settings of the spectralizer.
#[derive(Debug)]
pub struct SpectralizerSettings {
    /// Samples per transform window.
    pub window_size: usize,
    /// Number of display columns the spectrum is packed into.
    pub columns: usize,
}

pub open spec fn spectralizer_settings_window_size(config: toml::Value) -> Result<usize, Problem> {
    usize_or(config_entry(config, "WINDOW_SIZE"@), 2048)
}

pub open spec fn spectralizer_settings_columns(config: toml::Value) -> Result<usize, Problem> {
    usize_or(config_entry(config, "COLUMNS"@), 50)
}

/// Reads `WINDOW_SIZE` (default 2048) and `COLUMNS` (default 50), in that order.
pub fn spectralizer_settings(config: &toml::Value) -> (r: Result<SpectralizerSettings, SettingError>)
    ensures
        r is Ok <==> spectralizer_settings_window_size(*config) is Ok && spectralizer_settings_columns(*config) is Ok,
        r matches Ok(s) ==> {
            &&& spectralizer_settings_window_size(*config) == Ok::<usize, Problem>(s.window_size)
            &&& spectralizer_settings_columns(*config) == Ok::<usize, Problem>(s.columns)
        },
        r matches Err(e) ==> {
            ||| fails_with(spectralizer_settings_window_size(*config), e, "WINDOW_SIZE"@)
            ||| spectralizer_settings_window_size(*config) is Ok && fails_with(spectralizer_settings_columns(*config), e, "COLUMNS"@)
        },
{
    let window_size = match keyed("WINDOW_SIZE", usize_setting(config, "WINDOW_SIZE", 2048)) {
        Ok(v) => v,
        Err(e) => {
            return Err(e);
        },
    };
    let columns = match keyed("COLUMNS", usize_setting(config, "COLUMNS", 50)) {
        Ok(v) => v,
        Err(e) => {
            return Err(e);
        },
    };
    Ok(SpectralizerSettings { window_size, columns })
}

/// Size settings shared by the visualizers.
#[derive(Debug)]
pub struct DisplaySettings {
    /// Columns drawn.
    pub display_columns: usize,
    /// Window height in pixels.
    pub window_height: u32,
    /// Window width in pixels.
    pub window_width: u32,
}

pub open spec fn display_settings_display_columns(config: toml::Value, default_columns: i64, default_height: i64, default_width: i64) -> Result<usize, Problem> {
    usize_or(config_entry(config, "DISPLAY_COLUMNS"@), default_columns)
}

pub open spec fn display_settings_window_height(config: toml::Value, default_columns: i64, default_height: i64, default_width: i64) -> Result<u32, Problem> {
    u32_or(config_entry(config, "WINDOW_HEIGHT"@), default_height)
}

pub open spec fn display_settings_window_width(config: toml::Value, default_columns: i64, default_height: i64, default_width: i64) -> Result<u32, Problem> {
    u32_or(config_entry(config, "WINDOW_WIDTH"@), default_width)
}

/// Reads `DISPLAY_COLUMNS`, `WINDOW_HEIGHT` and `WINDOW_WIDTH`, in that order,
/// with the defaults that the calling visualizer uses.
pub fn display_settings(config: &toml::Value, default_columns: i64, default_height: i64, default_width: i64) -> (r: Result<DisplaySettings, SettingError>)
    ensures
        r is Ok <==> display_settings_display_columns(*config, default_columns, default_height, default_width) is Ok && display_settings_window_height(*config, default_columns, default_height, default_width) is Ok && display_settings_window_width(*config, default_columns, default_height, default_width) is Ok,
        r matches Ok(s) ==> {
            &&& display_settings_display_columns(*config, default_columns, default_height, default_width) == Ok::<usize, Problem>(s.display_columns)
            &&& display_settings_window_height(*config, default_columns, default_height, default_width) == Ok::<u32, Problem>(s.window_height)
            &&& display_settings_window_width(*config, default_columns, default_height, default_width) == Ok::<u32, Problem>(s.window_width)
        },
        r matches Err(e) ==> {
            ||| fails_with(display_settings_display_columns(*config, default_columns, default_height, default_width), e, "DISPLAY_COLUMNS"@)
            ||| display_settings_display_columns(*config, default_columns, default_height, default_width) is Ok && fails_with(display_settings_window_height(*config, default_columns, default_height, default_width), e, "WINDOW_HEIGHT"@)
            ||| display_settings_display_columns(*config, default_columns, default_height, default_width) is Ok && display_settings_window_height(*config, default_columns, default_height, default_width) is Ok && fails_with(display_settings_window_width(*config, default_columns, default_height, default_width), e, "WINDOW_WIDTH"@)
        },
{
    let display_columns = match keyed("DISPLAY_COLUMNS", usize_setting(config, "DISPLAY_COLUMNS", default_columns)) {
        Ok(v) => v,
        Err(e) => {
            return Err(e);
        },
    };
    let window_height = match keyed("WINDOW_HEIGHT", u32_setting(config, "WINDOW_HEIGHT", default_height)) {
        Ok(v) => v,
        Err(e) => {
            return Err(e);
        },
    };
    let window_width = match keyed("WINDOW_WIDTH", u32_setting(config, "WINDOW_WIDTH", default_width)) {
        Ok(v) => v,
        Err(e) => {
            return Err(e);
        },
    };
    Ok(DisplaySettings { display_columns, window_height, window_width })
}

/// Layout switches of the bar visualizer.
#[derive(Debug)]
pub struct BarModes {
    /// Draw the right channel too.
    pub right_channel: bool,
    /// Mirror the right channel at the middle line.
    pub right_channel_middle: bool,
    /// Shift the colour alternation of the left channel by one.
    pub right_channel_color_offset: bool,
    /// Draw both channels around the centre.
    pub symmetric: bool,
}

pub open spec fn bar_modes_right_channel(config: toml::Value) -> Result<bool, Problem> {
    bool_or(config_entry(config, "SIMPLE_RIGHT_CHANNEL"@), false)
}

pub open spec fn bar_modes_right_channel_middle(config: toml::Value) -> Result<bool, Problem> {
    bool_or(config_entry(config, "SIMPLE_RIGHT_CHANNEL_MIDDLE"@), false)
}

pub open spec fn bar_modes_right_channel_color_offset(config: toml::Value) -> Result<bool, Problem> {
    bool_or(config_entry(config, "SIMPLE_RIGHT_CHANNEL_COLOR_OFFSET"@), false)
}

pub open spec fn bar_modes_symmetric(config: toml::Value) -> Result<bool, Problem> {
    bool_or(config_entry(config, "SIMPLE_SYMMETRIC_MODE"@), false)
}

/// Reads `SIMPLE_RIGHT_CHANNEL`, `SIMPLE_RIGHT_CHANNEL_MIDDLE`,
/// `SIMPLE_RIGHT_CHANNEL_COLOR_OFFSET` and `SIMPLE_SYMMETRIC_MODE` (all default
/// false), in that order.
pub fn bar_modes(config: &toml::Value) -> (r: Result<BarModes, SettingError>)
    ensures
        r is Ok <==> bar_modes_right_channel(*config) is Ok && bar_modes_right_channel_middle(*config) is Ok && bar_modes_right_channel_color_offset(*config) is Ok && bar_modes_symmetric(*config) is Ok,
        r matches Ok(s) ==> {
            &&& bar_modes_right_channel(*config) == Ok::<bool, Problem>(s.right_channel)
            &&& bar_modes_right_channel_middle(*config) == Ok::<bool, Problem>(s.right_channel_middle)
            &&& bar_modes_right_channel_color_offset(*config) == Ok::<bool, Problem>(s.right_channel_color_offset)
            &&& bar_modes_symmetric(*config) == Ok::<bool, Problem>(s.symmetric)
        },
        r matches Err(e) ==> {
            ||| fails_with(bar_modes_right_channel(*config), e, "SIMPLE_RIGHT_CHANNEL"@)
            ||| bar_modes_right_channel(*config) is Ok && fails_with(bar_modes_right_channel_middle(*config), e, "SIMPLE_RIGHT_CHANNEL_MIDDLE"@)
            ||| bar_modes_right_channel(*config) is Ok && bar_modes_right_channel_middle(*config) is Ok && fails_with(bar_modes_right_channel_color_offset(*config), e, "SIMPLE_RIGHT_CHANNEL_COLOR_OFFSET"@)
            ||| bar_modes_right_channel(*config) is Ok && bar_modes_right_channel_middle(*config) is Ok && bar_modes_right_channel_color_offset(*config) is Ok && fails_with(bar_modes_symmetric(*config), e, "SIMPLE_SYMMETRIC_MODE"@)
        },
{
    let right_channel = match keyed("SIMPLE_RIGHT_CHANNEL", bool_setting(config, "SIMPLE_RIGHT_CHANNEL", false)) {
        Ok(v) => v,
        Err(e) => {
            return Err(e);
        },
    };
    let right_channel_middle = match keyed("SIMPLE_RIGHT_CHANNEL_MIDDLE", bool_setting(config, "SIMPLE_RIGHT_CHANNEL_MIDDLE", false)) {
        Ok(v) => v,
        Err(e) => {
            return Err(e);
        },
    };
    let right_channel_color_offset = match keyed("SIMPLE_RIGHT_CHANNEL_COLOR_OFFSET", bool_setting(config, "SIMPLE_RIGHT_CHANNEL_COLOR_OFFSET", false)) {
        Ok(v) => v,
        Err(e) => {
            return Err(e);
        },
    };
    let symmetric = match keyed("SIMPLE_SYMMETRIC_MODE", bool_setting(config, "SIMPLE_SYMMETRIC_MODE", false)) {
        Ok(v) => v,
        Err(e) => {
            return Err(e);
        },
    };
    Ok(BarModes { right_channel, right_channel_middle, right_channel_color_offset, symmetric })
}

/// Integer setting of the landscape grid.
#[derive(Debug)]
pub struct GridSettings {
    /// Rows of the landscape grid.
    pub rows: usize,
}

pub open spec fn grid_settings_rows(config: toml::Value) -> Result<usize, Problem> {
    usize_or(config_entry(config, "NA_ROWS"@), 100)
}

/// Reads `NA_ROWS` (default 100).
pub fn grid_settings(config: &toml::Value) -> (r: Result<GridSettings, SettingError>)
    ensures
        r is Ok <==> grid_settings_rows(*config) is Ok,
        r matches Ok(s) ==> grid_settings_rows(*config) == Ok::<usize, Problem>(s.rows),
        r matches Err(e) ==> fails_with(grid_settings_rows(*config), e, "NA_ROWS"@),
{
    let rows = match keyed("NA_ROWS", usize_setting(config, "NA_ROWS", 100)) {
        Ok(v) => v,
        Err(e) => {
            return Err(e);
        },
    };
    Ok(GridSettings { rows })
}

/// Integer settings of the lightning strikes over the landscape.
#[derive(Debug)]
pub struct LightningSettings {
    /// Lightning strikes kept at once.
    pub strikes: usize,
    /// Bound on the points of one strike.
    pub points_max: usize,
    /// Bound on the lines of one strike.
    pub lines_max: usize,
}

pub open spec fn lightning_settings_strikes(config: toml::Value) -> Result<usize, Problem> {
    usize_or(config_entry(config, "NA_LN_MAX"@), 10)
}

pub open spec fn lightning_settings_points_max(config: toml::Value) -> Result<usize, Problem> {
    usize_or(config_entry(config, "NA_LN_PMAX"@), 6)
}

pub open spec fn lightning_settings_lines_max(config: toml::Value) -> Result<usize, Problem> {
    usize_or(config_entry(config, "NA_LN_LMAX"@), 8)
}

/// Reads `NA_LN_MAX` (default 10), `NA_LN_PMAX` (default 6) and `NA_LN_LMAX`
/// (default 8), in that order.
pub fn lightning_settings(config: &toml::Value) -> (r: Result<LightningSettings, SettingError>)
    ensures
        r is Ok <==> lightning_settings_strikes(*config) is Ok && lightning_settings_points_max(*config) is Ok && lightning_settings_lines_max(*config) is Ok,
        r matches Ok(s) ==> {
            &&& lightning_settings_strikes(*config) == Ok::<usize, Problem>(s.strikes)
            &&& lightning_settings_points_max(*config) == Ok::<usize, Problem>(s.points_max)
            &&& lightning_settings_lines_max(*config) == Ok::<usize, Problem>(s.lines_max)
        },
        r matches Err(e) ==> {
            ||| fails_with(lightning_settings_strikes(*config), e, "NA_LN_MAX"@)
            ||| lightning_settings_strikes(*config) is Ok && fails_with(lightning_settings_points_max(*config), e, "NA_LN_PMAX"@)
            ||| lightning_settings_strikes(*config) is Ok && lightning_settings_points_max(*config) is Ok && fails_with(lightning_settings_lines_max(*config), e, "NA_LN_LMAX"@)
        },
{
    let strikes = match keyed("NA_LN_MAX", usize_setting(config, "NA_LN_MAX", 10)) {
        Ok(v) => v,
        Err(e) => {
            return Err(e);
        },
    };
    let points_max = match keyed("NA_LN_PMAX", usize_setting(config, "NA_LN_PMAX", 6)) {
        Ok(v) => v,
        Err(e) => {
            return Err(e);
        },
    };
    let lines_max = match keyed("NA_LN_LMAX", usize_setting(config, "NA_LN_LMAX", 8)) {
        Ok(v) => v,
        Err(e) => {
            return Err(e);
        },
    };
    Ok(LightningSettings { strikes, points_max, lines_max })
}

/// Settings of the script-driven visualizer.
#[derive(Debug)]
pub struct ScriptSettings {
    /// Columns handed to the script.
    pub display_columns: usize,
    /// Path of the script.
    pub script: String,
}

pub open spec fn script_settings_display_columns(config: toml::Value) -> Result<usize, Problem> {
    usize_or(config_entry(config, "DISPLAY_COLUMNS"@), 20)
}

pub open spec fn script_settings_script(config: toml::Value) -> Result<Seq<char>, Problem> {
    text_or(config_entry(config, "PYTHON_SCRIPT"@), "visualizer.py"@)
}

/// Reads `DISPLAY_COLUMNS` (default 20) and `PYTHON_SCRIPT` (default
/// "visualizer.py"), in that order.
pub fn script_settings(config: &toml::Value) -> (r: Result<ScriptSettings, SettingError>)
    ensures
        r is Ok <==> script_settings_display_columns(*config) is Ok && script_settings_script(*config) is Ok,
        r matches Ok(s) ==> {
            &&& script_settings_display_columns(*config) == Ok::<usize, Problem>(s.display_columns)
            &&& script_settings_script(*config) == Ok::<Seq<char>, Problem>(s.script@)
        },
        r matches Err(e) ==> {
            ||| fails_with(script_settings_display_columns(*config), e, "DISPLAY_COLUMNS"@)
            ||| script_settings_display_columns(*config) is Ok && fails_with(script_settings_script(*config), e, "PYTHON_SCRIPT"@)
        },
{
    let display_columns = match keyed("DISPLAY_COLUMNS", usize_setting(config, "DISPLAY_COLUMNS", 20)) {
        Ok(v) => v,
        Err(e) => {
            return Err(e);
        },
    };
    let script = match keyed("PYTHON_SCRIPT", text_setting(config, "PYTHON_SCRIPT", "visualizer.py")) {
        Ok(v) => v,
        Err(e) => {
            return Err(e);
        },
    };
    Ok(ScriptSettings { display_columns, script })
}

/// Settings of the spectrum dumper.
#[derive(Debug)]
pub struct DumpSettings {
    /// File the raw spectra are written to.
    pub filename: String,
}

pub open spec fn dump_settings_filename(config: toml::Value) -> Result<Seq<char>, Problem> {
    text_or(config_entry(config, "FILENAME"@), "data.m"@)
}

/// Reads `FILENAME` (default "data.m").
pub fn dump_settings(config: &toml::Value) -> (r: Result<DumpSettings, SettingError>)
    ensures
        r is Ok <==> dump_settings_filename(*config) is Ok,
        r matches Ok(s) ==> {
            &&& dump_settings_filename(*config) == Ok::<Seq<char>, Problem>(s.filename@)
        },
        r matches Err(e) ==> {
            ||| fails_with(dump_settings_filename(*config), e, "FILENAME"@)
        },
{
    let filename = match keyed("FILENAME", text_setting(config, "FILENAME", "data.m")) {
        Ok(v) => v,
        Err(e) => {
            return Err(e);
        },
    };
    Ok(DumpSettings { filename })
}

/// `framework_settings` reads each value from its own key (`RECORD_BUFFER_SIZE`, `RENDER_MODE`): an entry of the
/// right kind gives its value, a missing one the default, any other kind the
/// kind's error.
pub proof fn lemma_framework_settings_reads_keys(config: toml::Value)
    ensures
        config_entry(config, "RECORD_BUFFER_SIZE"@) matches Some(SettingEntry::Integer(i)) ==> record_buffer_size_of(config) == Ok::<usize, Problem>(i as usize),
        config_entry(config, "RECORD_BUFFER_SIZE"@) is None ==> record_buffer_size_of(config) == Ok::<usize, Problem>(8192),
        config_entry(config, "RECORD_BUFFER_SIZE"@) matches Some(x) && !(x is Integer) ==> record_buffer_size_of(config) == Err::<usize, Problem>(Problem::NotAnInteger),
        config_entry(config, "RENDER_MODE"@) matches Some(SettingEntry::Boolean(b)) ==> render_mode_of(config) == Ok::<bool, Problem>(b),
        config_entry(config, "RENDER_MODE"@) is None ==> render_mode_of(config) == Ok::<bool, Problem>(false),
        config_entry(config, "RENDER_MODE"@) matches Some(x) && !(x is Boolean) ==> render_mode_of(config) == Err::<bool, Problem>(Problem::NotABoolean),
{
}

/// `render_output` reads each value from its own key (`RENDER_SOUNDFILE`, `RENDER_OUTPUT_DIRECTORY`): an entry of the
/// right kind gives its value, a missing one the default, any other kind the
/// kind's error.
pub proof fn lemma_render_output_reads_keys(config: toml::Value)
    ensures
        config_entry(config, "RENDER_SOUNDFILE"@) matches Some(SettingEntry::Text(t)) ==> render_output_soundfile(config) == Ok::<Seq<char>, Problem>(t),
        config_entry(config, "RENDER_SOUNDFILE"@) is None ==> render_output_soundfile(config) == Err::<Seq<char>, Problem>(Problem::Missing),
        config_entry(config, "RENDER_SOUNDFILE"@) matches Some(x) && !(x is Text) ==> render_output_soundfile(config) == Err::<Seq<char>, Problem>(Problem::NotAString),
        config_entry(config, "RENDER_OUTPUT_DIRECTORY"@) matches Some(SettingEntry::Text(t)) ==> render_output_output_directory(config) == Ok::<Seq<char>, Problem>(t),
        config_entry(config, "RENDER_OUTPUT_DIRECTORY"@) is None ==> render_output_output_directory(config) == Ok::<Seq<char>, Problem>("render_frames"@),
        config_entry(config, "RENDER_OUTPUT_DIRECTORY"@) matches Some(x) && !(x is Text) ==> render_output_output_directory(config) == Err::<Seq<char>, Problem>(Problem::NotAString),
{
}

/// `recorder_settings` reads each value from its own key (`RECORD_READ_BUFFER_SIZE`, `RECORD_RATE`): an entry of the
/// right kind gives its value, a missing one the default, any other kind the
/// kind's error.
pub proof fn lemma_recorder_settings_reads_keys(config: toml::Value)
    ensures
        config_entry(config, "RECORD_READ_BUFFER_SIZE"@) matches Some(SettingEntry::Integer(i)) ==> recorder_settings_read_buffer_size(config) == Ok::<usize, Problem>(i as usize),
        config_entry(config, "RECORD_READ_BUFFER_SIZE"@) is None ==> recorder_settings_read_buffer_size(config) == Ok::<usize, Problem>(2048),
        config_entry(config, "RECORD_READ_BUFFER_SIZE"@) matches Some(x) && !(x is Integer) ==> recorder_settings_read_buffer_size(config) == Err::<usize, Problem>(Problem::NotAnInteger),
        config_entry(config, "RECORD_RATE"@) matches Some(SettingEntry::Integer(i)) ==> recorder_settings_rate(config) == Ok::<u32, Problem>(i as u32),
        config_entry(config, "RECORD_RATE"@) is None ==> recorder_settings_rate(config) == Ok::<u32, Problem>(48000),
        config_entry(config, "RECORD_RATE"@) matches Some(x) && !(x is Integer) ==> recorder_settings_rate(config) == Err::<u32, Problem>(Problem::NotAnInteger),
{
}

/// `spectralizer_settings` reads each value from its own key (`WINDOW_SIZE`, `COLUMNS`): an entry of the
/// right kind gives its value, a missing one the default, any other kind the
/// kind's error.
pub proof fn lemma_spectralizer_settings_reads_keys(config: toml::Value)
    ensures
        config_entry(config, "WINDOW_SIZE"@) matches Some(SettingEntry::Integer(i)) ==> spectralizer_settings_window_size(config) == Ok::<usize, Problem>(i as usize),
        config_entry(config, "WINDOW_SIZE"@) is None ==> spectralizer_settings_window_size(config) == Ok::<usize, Problem>(2048),
        config_entry(config, "WINDOW_SIZE"@) matches Some(x) && !(x is Integer) ==> spectralizer_settings_window_size(config) == Err::<usize, Problem>(Problem::NotAnInteger),
        config_entry(config, "COLUMNS"@) matches Some(SettingEntry::Integer(i)) ==> spectralizer_settings_columns(config) == Ok::<usize, Problem>(i as usize),
        config_entry(config, "COLUMNS"@) is None ==> spectralizer_settings_columns(config) == Ok::<usize, Problem>(50),
        config_entry(config, "COLUMNS"@) matches Some(x) && !(x is Integer) ==> spectralizer_settings_columns(config) == Err::<usize, Problem>(Problem::NotAnInteger),
{
}

/// `display_settings` reads each value from its own key (`DISPLAY_COLUMNS`, `WINDOW_HEIGHT`, `WINDOW_WIDTH`): an entry of the
/// right kind gives its value, a missing one the default, any other kind the
/// kind's error.
pub proof fn lemma_display_settings_reads_keys(config: toml::Value, default_columns: i64, default_height: i64, default_width: i64)
    ensures
        config_entry(config, "DISPLAY_COLUMNS"@) matches Some(SettingEntry::Integer(i)) ==> display_settings_display_columns(config, default_columns, default_height, default_width) == Ok::<usize, Problem>(i as usize),
        config_entry(config, "DISPLAY_COLUMNS"@) is None ==> display_settings_display_columns(config, default_columns, default_height, default_width) == Ok::<usize, Problem>(default_columns as usize),
        config_entry(config, "DISPLAY_COLUMNS"@) matches Some(x) && !(x is Integer) ==> display_settings_display_columns(config, default_columns, default_height, default_width) == Err::<usize, Problem>(Problem::NotAnInteger),
        config_entry(config, "WINDOW_HEIGHT"@) matches Some(SettingEntry::Integer(i)) ==> display_settings_window_height(config, default_columns, default_height, default_width) == Ok::<u32, Problem>(i as u32),
        config_entry(config, "WINDOW_HEIGHT"@) is None ==> display_settings_window_height(config, default_columns, default_height, default_width) == Ok::<u32, Problem>(default_height as u32),
        config_entry(config, "WINDOW_HEIGHT"@) matches Some(x) && !(x is Integer) ==> display_settings_window_height(config, default_columns, default_height, default_width) == Err::<u32, Problem>(Problem::NotAnInteger),
        config_entry(config, "WINDOW_WIDTH"@) matches Some(SettingEntry::Integer(i)) ==> display_settings_window_width(config, default_columns, default_height, default_width) == Ok::<u32, Problem>(i as u32),
        config_entry(config, "WINDOW_WIDTH"@) is None ==> display_settings_window_width(config, default_columns, default_height, default_width) == Ok::<u32, Problem>(default_width as u32),
        config_entry(config, "WINDOW_WIDTH"@) matches Some(x) && !(x is Integer) ==> display_settings_window_width(config, default_columns, default_height, default_width) == Err::<u32, Problem>(Problem::NotAnInteger),
{
}

/// `bar_modes` reads each value from its own key (`SIMPLE_RIGHT_CHANNEL`, `SIMPLE_RIGHT_CHANNEL_MIDDLE`, `SIMPLE_RIGHT_CHANNEL_COLOR_OFFSET`, `SIMPLE_SYMMETRIC_MODE`): an entry of the
/// right kind gives its value, a missing one the default, any other kind the
/// kind's error.
pub proof fn lemma_bar_modes_reads_keys(config: toml::Value)
    ensures
        config_entry(config, "SIMPLE_RIGHT_CHANNEL"@) matches Some(SettingEntry::Boolean(b)) ==> bar_modes_right_channel(config) == Ok::<bool, Problem>(b),
        config_entry(config, "SIMPLE_RIGHT_CHANNEL"@) is None ==> bar_modes_right_channel(config) == Ok::<bool, Problem>(false),
        config_entry(config, "SIMPLE_RIGHT_CHANNEL"@) matches Some(x) && !(x is Boolean) ==> bar_modes_right_channel(config) == Err::<bool, Problem>(Problem::NotABoolean),
        config_entry(config, "SIMPLE_RIGHT_CHANNEL_MIDDLE"@) matches Some(SettingEntry::Boolean(b)) ==> bar_modes_right_channel_middle(config) == Ok::<bool, Problem>(b),
        config_entry(config, "SIMPLE_RIGHT_CHANNEL_MIDDLE"@) is None ==> bar_modes_right_channel_middle(config) == Ok::<bool, Problem>(false),
        config_entry(config, "SIMPLE_RIGHT_CHANNEL_MIDDLE"@) matches Some(x) && !(x is Boolean) ==> bar_modes_right_channel_middle(config) == Err::<bool, Problem>(Problem::NotABoolean),
        config_entry(config, "SIMPLE_RIGHT_CHANNEL_COLOR_OFFSET"@) matches Some(SettingEntry::Boolean(b)) ==> bar_modes_right_channel_color_offset(config) == Ok::<bool, Problem>(b),
        config_entry(config, "SIMPLE_RIGHT_CHANNEL_COLOR_OFFSET"@) is None ==> bar_modes_right_channel_color_offset(config) == Ok::<bool, Problem>(false),
        config_entry(config, "SIMPLE_RIGHT_CHANNEL_COLOR_OFFSET"@) matches Some(x) && !(x is Boolean) ==> bar_modes_right_channel_color_offset(config) == Err::<bool, Problem>(Problem::NotABoolean),
        config_entry(config, "SIMPLE_SYMMETRIC_MODE"@) matches Some(SettingEntry::Boolean(b)) ==> bar_modes_symmetric(config) == Ok::<bool, Problem>(b),
        config_entry(config, "SIMPLE_SYMMETRIC_MODE"@) is None ==> bar_modes_symmetric(config) == Ok::<bool, Problem>(false),
        config_entry(config, "SIMPLE_SYMMETRIC_MODE"@) matches Some(x) && !(x is Boolean) ==> bar_modes_symmetric(config) == Err::<bool, Problem>(Problem::NotABoolean),
{
}

/// `grid_settings` reads each value from its own key (`NA_ROWS`): an entry of the
/// right kind gives its value, a missing one the default, any other kind the
/// kind's error.
pub proof fn lemma_grid_settings_reads_keys(config: toml::Value)
    ensures
        config_entry(config, "NA_ROWS"@) matches Some(SettingEntry::Integer(i)) ==> grid_settings_rows(config) == Ok::<usize, Problem>(i as usize),
        config_entry(config, "NA_ROWS"@) is None ==> grid_settings_rows(config) == Ok::<usize, Problem>(100),
        config_entry(config, "NA_ROWS"@) matches Some(x) && !(x is Integer) ==> grid_settings_rows(config) == Err::<usize, Problem>(Problem::NotAnInteger),
{
}

/// `lightning_settings` reads each value from its own key (`NA_LN_MAX`, `NA_LN_PMAX`, `NA_LN_LMAX`): an entry of the
/// right kind gives its value, a missing one the default, any other kind the
/// kind's error.
pub proof fn lemma_lightning_settings_reads_keys(config: toml::Value)
    ensures
        config_entry(config, "NA_LN_MAX"@) matches Some(SettingEntry::Integer(i)) ==> lightning_settings_strikes(config) == Ok::<usize, Problem>(i as usize),
        config_entry(config, "NA_LN_MAX"@) is None ==> lightning_settings_strikes(config) == Ok::<usize, Problem>(10),
        config_entry(config, "NA_LN_MAX"@) matches Some(x) && !(x is Integer) ==> lightning_settings_strikes(config) == Err::<usize, Problem>(Problem::NotAnInteger),
        config_entry(config, "NA_LN_PMAX"@) matches Some(SettingEntry::Integer(i)) ==> lightning_settings_points_max(config) == Ok::<usize, Problem>(i as usize),
        config_entry(config, "NA_LN_PMAX"@) is None ==> lightning_settings_points_max(config) == Ok::<usize, Problem>(6),
        config_entry(config, "NA_LN_PMAX"@) matches Some(x) && !(x is Integer) ==> lightning_settings_points_max(config) == Err::<usize, Problem>(Problem::NotAnInteger),
        config_entry(config, "NA_LN_LMAX"@) matches Some(SettingEntry::Integer(i)) ==> lightning_settings_lines_max(config) == Ok::<usize, Problem>(i as usize),
        config_entry(config, "NA_LN_LMAX"@) is None ==> lightning_settings_lines_max(config) == Ok::<usize, Problem>(8),
        config_entry(config, "NA_LN_LMAX"@) matches Some(x) && !(x is Integer) ==> lightning_settings_lines_max(config) == Err::<usize, Problem>(Problem::NotAnInteger),
{
}

/// `script_settings` reads each value from its own key (`DISPLAY_COLUMNS`, `PYTHON_SCRIPT`): an entry of the
/// right kind gives its value, a missing one the default, any other kind the
/// kind's error.
pub proof fn lemma_script_settings_reads_keys(config: toml::Value)
    ensures
        config_entry(config, "DISPLAY_COLUMNS"@) matches Some(SettingEntry::Integer(i)) ==> script_settings_display_columns(config) == Ok::<usize, Problem>(i as usize),
        config_entry(config, "DISPLAY_COLUMNS"@) is None ==> script_settings_display_columns(config) == Ok::<usize, Problem>(20),
        config_entry(config, "DISPLAY_COLUMNS"@) matches Some(x) && !(x is Integer) ==> script_settings_display_columns(config) == Err::<usize, Problem>(Problem::NotAnInteger),
        config_entry(config, "PYTHON_SCRIPT"@) matches Some(SettingEntry::Text(t)) ==> script_settings_script(config) == Ok::<Seq<char>, Problem>(t),
        config_entry(config, "PYTHON_SCRIPT"@) is None ==> script_settings_script(config) == Ok::<Seq<char>, Problem>("visualizer.py"@),
        config_entry(config, "PYTHON_SCRIPT"@) matches Some(x) && !(x is Text) ==> script_settings_script(config) == Err::<Seq<char>, Problem>(Problem::NotAString),
{
}

/// `dump_settings` reads each value from its own key (`FILENAME`): an entry of the
/// right kind gives its value, a missing one the default, any other kind the
/// kind's error.
pub proof fn lemma_dump_settings_reads_keys(config: toml::Value)
    ensures
        config_entry(config, "FILENAME"@) matches Some(SettingEntry::Text(t)) ==> dump_settings_filename(config) == Ok::<Seq<char>, Problem>(t),
        config_entry(config, "FILENAME"@) is None ==> dump_settings_filename(config) == Ok::<Seq<char>, Problem>("data.m"@),
        config_entry(config, "FILENAME"@) matches Some(x) && !(x is Text) ==> dump_settings_filename(config) == Err::<Seq<char>, Problem>(Problem::NotAString),
{
}

} // verus!
