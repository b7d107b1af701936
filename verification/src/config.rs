//! Settings of an output, and how the settings of one output are put
//! together from what the configuration says at its three levels: globally,
//! for any output, and for the output itself.

use crate::patterns::matched_by;
use crate::patterns::pattern_compiles;
use crate::text::str_eq;
use crate::transition::Transition;
use vstd::prelude::*;
use vstd::string::*;

verus! {

/// How the outputs relate when content changes.
#[derive(Debug)]
pub enum MonitorBehavior {
    Independent,
    Synchronized,
    Grouped(Vec<Vec<String>>),
}

/// The outputs that an output changes its content with.
#[derive(Debug, Clone, Copy, PartialEq, Eq, Structural)]
pub enum ChangeGroup {
    /// All outputs change together.
    All,
    /// The outputs of the group at this place in the list of groups change together.
    Listed { group: usize },
    /// The output changes on its own.
    Alone,
}

/// Order in which content is picked.
#[derive(Debug, Clone, Copy, PartialEq, Eq, Structural)]
pub enum SortingStrategy {
    Loveit,
    Random,
    Ascending,
    Descending,
}

/// Layer of the desktop a wallpaper surface is placed on.
#[derive(Debug, Clone, Copy, PartialEq, Eq, Structural)]
pub enum Layer {
    Background,
    Bottom,
    Top,
    Overlay,
}

/// The settings of one output, complete.
#[derive(Debug)]
pub struct OutputConfig {
    /// Directory the content is taken from.
    pub path: Option<String>,
    /// Seconds a piece of content is shown for.
    pub duration: u64,
    /// Share of video among the content, in percent.
    pub video_ratio: u8,
    pub transition: Transition,
    /// Length of a transition in milliseconds.
    pub transition_time: u32,
    /// Playback volume in percent.
    pub volume: u8,
    pub sorting: SortingStrategy,
    pub layer: Layer,
    pub default_playlist: Option<String>,
}

/// Settings that apply to every output unless overridden.
#[derive(Debug)]
pub struct GlobalConfig {
    pub monitor_behavior: MonitorBehavior,
    pub _custom_transitions: bool,
    pub video_ratio: Option<u8>,
    pub transition_time: Option<u32>,
    pub volume: Option<u8>,
    pub script_path: Option<String>,
    pub sorting: Option<SortingStrategy>,
    /// Seconds between two ticks of the script.
    pub script_tick_interval: u64,
    pub default_playlist: Option<String>,
}

/// Settings of an output as far as one level of the configuration gives them.
#[derive(Debug)]
pub struct PartialOutputConfig {
    pub path: Option<String>,
    pub duration: Option<u64>,
    pub video_ratio: Option<u8>,
    pub transition: Option<Transition>,
    pub transition_time: Option<u32>,
    pub volume: Option<u8>,
    pub sorting: Option<SortingStrategy>,
    pub layer: Option<Layer>,
    pub default_playlist: Option<String>,
}

/// The whole configuration.
///
/// `outputs` holds the sections for single outputs in the order in which they
/// are tried. A section is named after an output, or after `re:` and a
/// pattern that is matched against the description of an output.
#[derive(Debug)]
pub struct Config {
    pub global: GlobalConfig,
    pub any: PartialOutputConfig,
    pub outputs: Vec<(String, PartialOutputConfig)>,
}

/// Seconds a piece of content is shown for where nothing else is configured.
pub const DEFAULT_DURATION_SECS: u64 = 300;

/// Share of video, in percent, where nothing else is configured.
pub const DEFAULT_VIDEO_RATIO: u8 = 50;

/// Length of a transition in milliseconds where nothing else is configured.
pub const DEFAULT_TRANSITION_TIME_MS: u32 = 1000;

/// Playback volume in percent where nothing else is configured.
pub const DEFAULT_VOLUME: u8 = 100;

/// Seconds between two ticks of the script where a configuration file leaves them open.
pub const DEFAULT_SCRIPT_TICK_INTERVAL: u64 = 1;

pub fn default_layer() -> (layer: Layer)
    ensures
        layer == Layer::Background,
{
    Layer::Background
}

pub fn default_duration() -> (secs: u64)
    ensures
        secs == DEFAULT_DURATION_SECS,
{
    DEFAULT_DURATION_SECS
}

pub fn default_video_ratio() -> (percent: u8)
    ensures
        percent == DEFAULT_VIDEO_RATIO,
{
    DEFAULT_VIDEO_RATIO
}

pub fn default_transition_time() -> (ms: u32)
    ensures
        ms == DEFAULT_TRANSITION_TIME_MS,
{
    DEFAULT_TRANSITION_TIME_MS
}

pub fn default_volume() -> (percent: u8)
    ensures
        percent == DEFAULT_VOLUME,
{
    DEFAULT_VOLUME
}

pub fn default_script_tick_interval() -> (secs: u64)
    ensures
        secs == DEFAULT_SCRIPT_TICK_INTERVAL,
{
    DEFAULT_SCRIPT_TICK_INTERVAL
}

/// `over` where it says something, else `under`.
pub open spec fn overridden<A>(under: Option<A>, over: Option<A>) -> Option<A> {
    if over.is_some() {
        over
    } else {
        under
    }
}

/// Whether a section name stands for a pattern: it begins with `re:`.
pub open spec fn is_pattern_key(key: Seq<char>) -> bool {
    key.len() >= 3 && key[0] == 'r' && key[1] == 'e' && key[2] == ':'
}

/// The pattern a section name of the form `re:` and pattern stands for.
pub open spec fn pattern_of(key: Seq<char>) -> Seq<char> {
    key.subrange(3, key.len() as int)
}

fn copy_text(text: &Option<String>) -> (copy: Option<String>)
    ensures
        copy == *text,
{
    match text {
        Some(s) => Some(s.clone()),
        None => None,
    }
}

fn copy_transition(transition: &Option<Transition>) -> (copy: Option<Transition>)
    ensures
        copy == *transition,
{
    match transition {
        Some(t) => Some(t.duplicate()),
        None => None,
    }
}

impl Default for SortingStrategy {
    fn default() -> (s: Self)
        ensures
            s == SortingStrategy::Loveit,
    {
        SortingStrategy::Loveit
    }
}

impl Default for Layer {
    fn default() -> (l: Self)
        ensures
            l == Layer::Background,
    {
        Layer::Background
    }
}

impl Default for MonitorBehavior {
    fn default() -> (b: Self)
        ensures
            b == MonitorBehavior::Independent,
    {
        MonitorBehavior::Independent
    }
}

impl Default for PartialOutputConfig {
    fn default() -> (p: Self)
        ensures
            p == PartialOutputConfig::unset(),
    {
        PartialOutputConfig {
            path: None,
            duration: None,
            video_ratio: None,
            transition: None,
            transition_time: None,
            volume: None,
            sorting: None,
            layer: None,
            default_playlist: None,
        }
    }
}

impl Default for GlobalConfig {
    fn default() -> (g: Self)
        ensures
            g == (GlobalConfig {
                monitor_behavior: MonitorBehavior::Independent,
                _custom_transitions: false,
                video_ratio: None,
                transition_time: None,
                volume: None,
                script_path: None,
                sorting: None,
                script_tick_interval: 0,
                default_playlist: None,
            }),
    {
        GlobalConfig {
            monitor_behavior: MonitorBehavior::Independent,
            _custom_transitions: false,
            video_ratio: None,
            transition_time: None,
            volume: None,
            script_path: None,
            sorting: None,
            script_tick_interval: 0,
            default_playlist: None,
        }
    }
}

impl Default for Config {
    fn default() -> (c: Self)
        ensures
            c.any == PartialOutputConfig::unset(),
            c.outputs@.len() == 0,
            c.global.video_ratio.is_none() && c.global.transition_time.is_none()
                && c.global.volume.is_none() && c.global.sorting.is_none()
                && c.global.default_playlist.is_none() && c.global.script_path.is_none(),
            c.global.monitor_behavior == MonitorBehavior::Independent,
            c.global.script_tick_interval == 0,
            !c.global._custom_transitions,
    {
        Config {
            global: GlobalConfig::default(),
            any: PartialOutputConfig::default(),
            outputs: Vec::new(),
        }
    }
}

/// Whether a group of outputs lists the output `name`.
pub open spec fn lists(group: Vec<String>, name: Seq<char>) -> bool {
    exists|i: int| 0 <= i < group@.len() && (#[trigger] group@[i])@ == name
}

fn group_lists(group: &Vec<String>, name: &str) -> (found: bool)
    ensures
        found == lists(*group, name@),
{
    let mut i: usize = 0;
    while i < group.len()
        invariant
            i <= group@.len(),
            forall|j: int| 0 <= j < i ==> (#[trigger] group@[j])@ != name@,
        decreases group@.len() - i,
    {
        if str_eq(group[i].as_str(), name) {
            return true;
        }
        i = i + 1;
    }
    false
}

impl MonitorBehavior {
    /// Whether `group` is the group that the output `name` changes its
    /// content with: the first group that lists the output, where the
    /// outputs are grouped; no group otherwise.
    pub open spec fn is_group_of(self, name: Seq<char>, group: Option<int>) -> bool {
        match self {
            MonitorBehavior::Grouped(groups) => match group {
                Some(g) => 0 <= g < groups@.len() && lists(groups@[g], name) && forall|j: int|
                    0 <= j < g ==> !lists(#[trigger] groups@[j], name),
                None => forall|j: int| 0 <= j < groups@.len() ==> !lists(#[trigger] groups@[j], name),
            },
            _ => group.is_none(),
        }
    }

    /// The group that the output `name` changes its content with, by its
    /// place in the list of groups. An output that no group lists, and any
    /// output where the outputs are not grouped, has none.
    pub fn group_of(&self, name: &str) -> (group: Option<usize>)
        ensures
            self.is_group_of(
                name@,
                match group {
                    Some(g) => Some(g as int),
                    None => None,
                },
            ),
    {
        match self {
            MonitorBehavior::Grouped(groups) => {
                let mut g: usize = 0;
                while g < groups.len()
                    invariant
                        *self == MonitorBehavior::Grouped(*groups),
                        g <= groups@.len(),
                        forall|j: int| 0 <= j < g ==> !lists(#[trigger] groups@[j], name@),
                    decreases groups@.len() - g,
                {
                    if group_lists(&groups[g], name) {
                        return Some(g);
                    }
                    g = g + 1;
                }
                None
            },
            _ => None,
        }
    }

    /// Says with which outputs the output `name` changes its content: with
    /// all where the outputs are synchronized, with the first group that
    /// lists it where they are grouped, and alone otherwise.
    pub fn change_group(&self, name: &str) -> (group: ChangeGroup)
        ensures
            *self is Synchronized ==> group == ChangeGroup::All,
            *self is Independent ==> group == ChangeGroup::Alone,
            *self is Grouped ==> match group {
                ChangeGroup::Listed { group: g } => self.is_group_of(name@, Some(g as int)),
                ChangeGroup::Alone => self.is_group_of(name@, None),
                ChangeGroup::All => false,
            },
    {
        match self {
            MonitorBehavior::Synchronized => ChangeGroup::All,
            MonitorBehavior::Independent => ChangeGroup::Alone,
            MonitorBehavior::Grouped(_) => match self.group_of(name) {
                Some(group) => ChangeGroup::Listed { group },
                None => ChangeGroup::Alone,
            },
        }
    }
}

impl PartialOutputConfig {
    /// Settings that say nothing.
    pub open spec fn unset() -> PartialOutputConfig {
        PartialOutputConfig {
            path: None,
            duration: None,
            video_ratio: None,
            transition: None,
            transition_time: None,
            volume: None,
            sorting: None,
            layer: None,
            default_playlist: None,
        }
    }

    /// These settings with those of `other` laid over them: each setting that
    /// `other` gives wins, each that it leaves open stays.
    pub open spec fn merged_with(self, other: PartialOutputConfig) -> PartialOutputConfig {
        PartialOutputConfig {
            path: overridden(self.path, other.path),
            duration: overridden(self.duration, other.duration),
            video_ratio: overridden(self.video_ratio, other.video_ratio),
            transition: overridden(self.transition, other.transition),
            transition_time: overridden(self.transition_time, other.transition_time),
            volume: overridden(self.volume, other.volume),
            sorting: overridden(self.sorting, other.sorting),
            layer: overridden(self.layer, other.layer),
            default_playlist: overridden(self.default_playlist, other.default_playlist),
        }
    }

    /// These settings made complete: what is open gets its default.
    pub open spec fn completed(self) -> OutputConfig {
        OutputConfig {
            path: self.path,
            duration: match self.duration {
                Some(d) => d,
                None => DEFAULT_DURATION_SECS,
            },
            video_ratio: match self.video_ratio {
                Some(v) => v,
                None => DEFAULT_VIDEO_RATIO,
            },
            transition: match self.transition {
                Some(t) => t,
                None => Transition::Fade,
            },
            transition_time: match self.transition_time {
                Some(t) => t,
                None => DEFAULT_TRANSITION_TIME_MS,
            },
            volume: match self.volume {
                Some(v) => v,
                None => DEFAULT_VOLUME,
            },
            sorting: match self.sorting {
                Some(s) => s,
                None => SortingStrategy::Loveit,
            },
            layer: match self.layer {
                Some(l) => l,
                None => Layer::Background,
            },
            default_playlist: self.default_playlist,
        }
    }

    /// Lays the settings of `other` over these.
    pub fn merge(&mut self, other: &Self)
        ensures
            *final(self) == old(self).merged_with(*other),
    {
        if other.path.is_some() {
            self.path = copy_text(&other.path);
        }
        if other.duration.is_some() {
            self.duration = other.duration;
        }
        if other.video_ratio.is_some() {
            self.video_ratio = other.video_ratio;
        }
        if other.transition.is_some() {
            self.transition = copy_transition(&other.transition);
        }
        if other.transition_time.is_some() {
            self.transition_time = other.transition_time;
        }
        if other.volume.is_some() {
            self.volume = other.volume;
        }
        if other.sorting.is_some() {
            self.sorting = other.sorting;
        }
        if other.layer.is_some() {
            self.layer = other.layer;
        }
        if other.default_playlist.is_some() {
            self.default_playlist = copy_text(&other.default_playlist);
        }
    }

    /// Makes the settings complete: what is open gets its default.
    pub fn into_output_config(self) -> (cfg: OutputConfig)
        ensures
            cfg == self.completed(),
    {
        OutputConfig {
            path: self.path,
            duration: match self.duration {
                Some(d) => d,
                None => DEFAULT_DURATION_SECS,
            },
            video_ratio: match self.video_ratio {
                Some(v) => v,
                None => DEFAULT_VIDEO_RATIO,
            },
            transition: match self.transition {
                Some(t) => t,
                None => Transition::Fade,
            },
            transition_time: match self.transition_time {
                Some(t) => t,
                None => DEFAULT_TRANSITION_TIME_MS,
            },
            volume: match self.volume {
                Some(v) => v,
                None => DEFAULT_VOLUME,
            },
            sorting: match self.sorting {
                Some(s) => s,
                None => SortingStrategy::Loveit,
            },
            layer: match self.layer {
                Some(l) => l,
                None => Layer::Background,
            },
            default_playlist: self.default_playlist,
        }
    }
}

impl Config {
    /// What the global level says of an output.
    pub open spec fn global_level(self) -> PartialOutputConfig {
        PartialOutputConfig {
            path: None,
            duration: None,
            video_ratio: self.global.video_ratio,
            transition: None,
            transition_time: self.global.transition_time,
            volume: self.global.volume,
            sorting: self.global.sorting,
            layer: None,
            default_playlist: self.global.default_playlist,
        }
    }

    /// The settings of an output for which the section at `section` was
    /// chosen, or none: the global level, the level for any output over it,
    /// and the chosen section over both, made complete.
    pub open spec fn config_with(self, section: Option<int>) -> OutputConfig {
        let base = self.global_level().merged_with(self.any);
        match section {
            Some(i) => base.merged_with(self.outputs@[i].1).completed(),
            None => base.completed(),
        }
    }

    /// Whether the section at `i` is one for the output `name` with the
    /// description `description`: a section named after a pattern is, where
    /// the pattern compiles and matches the description; any other section
    /// is, where it is named after the output.
    pub open spec fn section_fits(self, i: int, name: Seq<char>, description: Seq<char>) -> bool {
        let key = self.outputs@[i].0@;
        if is_pattern_key(key) {
            pattern_compiles(pattern_of(key)) && matched_by(pattern_of(key), description)
        } else {
            key == name
        }
    }

    /// Whether `section` is the choice for the output: the first section
    /// that fits, or none where none fits.
    pub open spec fn is_chosen(
        self,
        name: Seq<char>,
        description: Seq<char>,
        section: Option<int>,
    ) -> bool {
        match section {
            Some(i) => {
                &&& 0 <= i < self.outputs@.len()
                &&& self.section_fits(i, name, description)
                &&& forall|j: int| 0 <= j < i ==> !#[trigger] self.section_fits(j, name, description)
            },
            None => forall|j: int|
                0 <= j < self.outputs@.len() ==> !#[trigger] self.section_fits(j, name, description),
        }
    }

    /// The section chosen for the output.
    pub open spec fn chosen_section(self, name: Seq<char>, description: Seq<char>) -> Option<int> {
        choose|section: Option<int>| self.is_chosen(name, description, section)
    }

    /// There is one choice: the first section that fits is the only first.
    pub proof fn lemma_choice_is_unique(
        self,
        name: Seq<char>,
        description: Seq<char>,
        section: Option<int>,
    )
        requires
            self.is_chosen(name, description, section),
        ensures
            self.chosen_section(name, description) == section,
    {
        let other = self.chosen_section(name, description);
        assert(self.is_chosen(name, description, other));
        match (section, other) {
            (Some(a), Some(b)) => {
                if a < b {
                    assert(!self.section_fits(a, name, description));
                }
                if b < a {
                    assert(!self.section_fits(b, name, description));
                }
            },
            (Some(a), None) => {
                assert(!self.section_fits(a, name, description));
            },
            (None, Some(b)) => {
                assert(!self.section_fits(b, name, description));
            },
            (None, None) => {},
        }
    }

    /// The settings of an output for which the section at `section` was chosen, or none.
    pub fn config_for_section(&self, section: Option<usize>) -> (cfg: OutputConfig)
        requires
            section matches Some(i) ==> i < self.outputs@.len(),
        ensures
            cfg == self.config_with(
                match section {
                    Some(i) => Some(i as int),
                    None => None,
                },
            ),
    {
        let mut merged = PartialOutputConfig {
            path: None,
            duration: None,
            video_ratio: self.global.video_ratio,
            transition: None,
            transition_time: self.global.transition_time,
            volume: self.global.volume,
            sorting: self.global.sorting,
            layer: None,
            default_playlist: copy_text(&self.global.default_playlist),
        };
        merged.merge(&self.any);
        match section {
            Some(i) => {
                merged.merge(&self.outputs[i].1);
            },
            None => {},
        }
        merged.into_output_config()
    }

    /// Chooses the section for an output: the first, in the order of
    /// `outputs`, that is named after the output or whose pattern matches the
    /// description of the output. A pattern that is no valid regular
    /// expression matches nothing.
    pub fn find_section(&self, name: &str, description: &str) -> (section: Option<usize>)
        ensures
            self.is_chosen(
                name@,
                description@,
                match section {
                    Some(i) => Some(i as int),
                    None => None,
                },
            ),
            self.chosen_section(name@, description@) == match section {
                Some(i) => Some(i as int),
                None => None,
            },
    {
        let mut i: usize = 0;
        while i < self.outputs.len()
            invariant
                i <= self.outputs@.len(),
                forall|j: int|
                    0 <= j < i ==> !#[trigger] self.section_fits(j, name@, description@),
            decreases self.outputs@.len() - i,
        {
            let key = self.outputs[i].0.as_str();
            if has_pattern_prefix(key) {
                let pattern = key.substring_char(3, key.unicode_len());
                match regex::Regex::new(pattern) {
                    Ok(re) => {
                        if re.is_match(description) {
                            proof {
                                self.lemma_choice_is_unique(name@, description@, Some(i as int));
                            }
                            return Some(i);
                        }
                    },
                    Err(_) => {},
                }
            } else if str_eq(key, name) {
                proof {
                    self.lemma_choice_is_unique(name@, description@, Some(i as int));
                }
                return Some(i);
            }
            i = i + 1;
        }
        proof {
            self.lemma_choice_is_unique(name@, description@, None);
        }
        None
    }

    /// The settings of the output `name`, whose description is `description`.
    ///
    /// The global level is the base, the level for any output is laid over
    /// it, and over both the section chosen for the output by `find_section`;
    /// what is still open gets its default.
    pub fn get_config_for_output(&self, name: &str, description: &str) -> (cfg: OutputConfig)
        ensures
            cfg == self.config_with(self.chosen_section(name@, description@)),
    {
        let section = self.find_section(name, description);
        self.config_for_section(section)
    }
}

/// Whether a section name begins with `re:`.
fn has_pattern_prefix(key: &str) -> (yes: bool)
    ensures
        yes == is_pattern_key(key@),
{
    let n = key.unicode_len();
    n >= 3 && key.get_char(0) == 'r' && key.get_char(1) == 'e' && key.get_char(2) == ':'
}

} // verus!
