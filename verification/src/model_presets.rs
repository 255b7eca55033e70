//! The built-in model presets offered by the model picker.

use vstd::prelude::*;

verus! {

pub const HIDE_GPT5_1_MIGRATION_PROMPT_CONFIG: &'static str = "hide_gpt5_1_migration_prompt";

pub const HIDE_GPT_5_1_CODEX_MAX_MIGRATION_PROMPT_CONFIG: &'static str =
    "hide_gpt-5.1-codex-max_migration_prompt";

/// How much the model reasons before it answers.
#[derive(Clone, Copy, Debug, PartialEq, Eq, Hash, Structural)]
pub enum ReasoningEffort {
    Minimal,
    Low,
    Medium,
    High,
    XHigh,
}

/// How a user signs in.
#[derive(Clone, Copy, Debug, PartialEq, Eq, Structural)]
pub enum AuthMode {
    ApiKey,
    ChatGPT,
}

/// A reasoning effort that a model supports, with its description.
#[derive(Clone, Debug, PartialEq, Eq)]
pub struct ReasoningEffortPreset {
    pub effort: ReasoningEffort,
    pub description: String,
}

/// The model that a preset is upgraded to, and how the upgrade is announced.
#[derive(Clone, Debug, PartialEq, Eq)]
pub struct ModelUpgrade {
    pub id: String,
    pub reasoning_effort_mapping: Option<Vec<(ReasoningEffort, ReasoningEffort)>>,
    pub migration_config_key: String,
    pub model_link: Option<String>,
    pub upgrade_copy: Option<String>,
    pub migration_markdown: Option<String>,
}

/// A model as the picker offers it.
#[derive(Clone, Debug, PartialEq, Eq)]
pub struct ModelPreset {
    pub id: String,
    pub model: String,
    pub display_name: String,
    pub description: String,
    pub default_reasoning_effort: ReasoningEffort,
    pub supported_reasoning_efforts: Vec<ReasoningEffortPreset>,
    pub supports_personality: bool,
    pub is_default: bool,
    pub upgrade: Option<ModelUpgrade>,
    pub show_in_picker: bool,
    pub supported_in_api: bool,
}

/// A `ReasoningEffortPreset` with its text as a character sequence.
pub struct EffortView {
    pub effort: ReasoningEffort,
    pub description: Seq<char>,
}

/// A `ModelUpgrade` with its texts as character sequences.
pub struct UpgradeView {
    pub id: Seq<char>,
    pub reasoning_effort_mapping: Option<Seq<(ReasoningEffort, ReasoningEffort)>>,
    pub migration_config_key: Seq<char>,
    pub model_link: Option<Seq<char>>,
    pub upgrade_copy: Option<Seq<char>>,
    pub migration_markdown: Option<Seq<char>>,
}

/// A `ModelPreset` with its texts as character sequences.
pub struct PresetView {
    pub id: Seq<char>,
    pub model: Seq<char>,
    pub display_name: Seq<char>,
    pub description: Seq<char>,
    pub default_reasoning_effort: ReasoningEffort,
    pub supported_reasoning_efforts: Seq<EffortView>,
    pub supports_personality: bool,
    pub is_default: bool,
    pub upgrade: Option<UpgradeView>,
    pub show_in_picker: bool,
    pub supported_in_api: bool,
}

/// The text of an optional string.
pub open spec fn optional_text(s: Option<String>) -> Option<Seq<char>> {
    match s {
        Some(t) => Some(t@),
        None => None,
    }
}

impl View for ReasoningEffortPreset {
    type V = EffortView;

    open spec fn view(&self) -> EffortView {
        EffortView { effort: self.effort, description: self.description@ }
    }
}

impl View for ModelUpgrade {
    type V = UpgradeView;

    open spec fn view(&self) -> UpgradeView {
        UpgradeView {
            id: self.id@,
            reasoning_effort_mapping: match self.reasoning_effort_mapping {
                Some(m) => Some(m@),
                None => None,
            },
            migration_config_key: self.migration_config_key@,
            model_link: optional_text(self.model_link),
            upgrade_copy: optional_text(self.upgrade_copy),
            migration_markdown: optional_text(self.migration_markdown),
        }
    }
}

/// The views of a list of reasoning-effort presets.
pub open spec fn effort_views(v: Seq<ReasoningEffortPreset>) -> Seq<EffortView> {
    v.map_values(|p: ReasoningEffortPreset| p@)
}

impl View for ModelPreset {
    type V = PresetView;

    open spec fn view(&self) -> PresetView {
        PresetView {
            id: self.id@,
            model: self.model@,
            display_name: self.display_name@,
            description: self.description@,
            default_reasoning_effort: self.default_reasoning_effort,
            supported_reasoning_efforts: effort_views(self.supported_reasoning_efforts@),
            supports_personality: self.supports_personality,
            is_default: self.is_default,
            upgrade: match self.upgrade {
                Some(u) => Some(u@),
                None => None,
            },
            show_in_picker: self.show_in_picker,
            supported_in_api: self.supported_in_api,
        }
    }
}

/// The views of a list of presets.
pub open spec fn preset_views(v: Seq<ModelPreset>) -> Seq<PresetView> {
    v.map_values(|p: ModelPreset| p@)
}

pub const EFFORT_LIGHT: &'static str = "更轻量推理的快速响应";

pub const EFFORT_BALANCED: &'static str = "兼顾速度与推理深度，适合日常任务";

pub const EFFORT_DEEPER: &'static str = "复杂问题的更深推理";

pub const EFFORT_EXTRA_HIGH: &'static str = "复杂问题的超高推理深度";

pub const EFFORT_ADAPTIVE: &'static str = "根据任务动态调整推理";

pub const EFFORT_MAXIMUM: &'static str = "为复杂或模糊问题最大化推理深度";

pub const EFFORT_QUICK: &'static str = "兼顾速度与一定推理；适合直接问题和短解释";

pub const EFFORT_GENERAL: &'static str = "在通用任务上平衡推理深度与延迟";

pub const EFFORT_FASTEST_LIMITED: &'static str = "推理受限但速度最快";

pub const EFFORT_FASTEST_LITTLE: &'static str = "推理较少但速度最快";

pub const GPT_52_CODEX: &'static str = "gpt-5.2-codex";

pub const GPT_51_CODEX_MAX: &'static str = "gpt-5.1-codex-max";

pub const GPT_51_CODEX_MINI: &'static str = "gpt-5.1-codex-mini";

pub const GPT_52: &'static str = "gpt-5.2";

pub const BENGALFOX: &'static str = "bengalfox";

pub const BOOMSLANG: &'static str = "boomslang";

pub const GPT_5_CODEX: &'static str = "gpt-5-codex";

pub const GPT_5_CODEX_MINI: &'static str = "gpt-5-codex-mini";

pub const GPT_51_CODEX: &'static str = "gpt-5.1-codex";

pub const GPT_5: &'static str = "gpt-5";

pub const GPT_51: &'static str = "gpt-5.1";

pub const DESCRIPTION_GPT_52_CODEX: &'static str = "最新前沿的智能体编程模型。";

pub const DESCRIPTION_GPT_51_CODEX_MAX: &'static str = "为 Codex 优化的旗舰模型，兼具深度与速度推理。";

pub const DESCRIPTION_CODEX_MINI: &'static str = "为 Codex 优化，更便宜更快，但能力较弱。";

pub const DESCRIPTION_GPT_52: &'static str = "最新前沿模型，在知识、推理与编码上都有提升";

pub const DESCRIPTION_CODEX: &'static str = "为 Codex 优化。";

pub const DESCRIPTION_GPT_5: &'static str = "广泛的世界知识与强通用推理。";

pub const UPGRADE_MODEL_LINK: &'static str = "https://openai.com/index/introducing-gpt-5-2-codex";

pub const UPGRADE_COPY: &'static str = "Codex 现已由 gpt-5.2-codex 驱动，这是我们最新的前沿智能体编程模型。它比前代更聪明、更快速，能够胜任长时间的项目级工作。";

pub const UPGRADE_MIGRATION_MARKDOWN: &'static str = "**Codex 刚刚升级，引入 {model_to}。**\n\nCodex 现已由 gpt-5.2-codex 驱动，这是我们最新的前沿智能体编程模型。它比前代更聪明、更快速，能够胜任长时间的项目级工作。了解更多： https://openai.com/index/introducing-gpt-5-2-codex\n\n如有需要，你仍可继续使用 {model_from}。\n";


/// Builds a reasoning-effort preset.
fn effort_preset(effort: ReasoningEffort, description: &str) -> (p: ReasoningEffortPreset)
    ensures
        p@ == (EffortView { effort, description: description@ }),
{
    ReasoningEffortPreset { effort, description: String::from_str(description) }
}


/// The `codex` list of reasoning efforts.
pub open spec fn codex_efforts() -> Seq<EffortView> {
    seq![
        EffortView { effort: ReasoningEffort::Low, description: EFFORT_LIGHT@ },
        EffortView { effort: ReasoningEffort::Medium, description: EFFORT_BALANCED@ },
        EffortView { effort: ReasoningEffort::High, description: EFFORT_DEEPER@ },
        EffortView { effort: ReasoningEffort::XHigh, description: EFFORT_EXTRA_HIGH@ },
    ]
}


fn codex_effort_presets() -> (v: Vec<ReasoningEffortPreset>)
    ensures
        effort_views(v@) == codex_efforts(),
{
    let mut v: Vec<ReasoningEffortPreset> = Vec::new();
    v.push(effort_preset(ReasoningEffort::Low, EFFORT_LIGHT));
    v.push(effort_preset(ReasoningEffort::Medium, EFFORT_BALANCED));
    v.push(effort_preset(ReasoningEffort::High, EFFORT_DEEPER));
    v.push(effort_preset(ReasoningEffort::XHigh, EFFORT_EXTRA_HIGH));
    assert(effort_views(v@) =~= codex_efforts());
    v
}


/// The `codex_mini` list of reasoning efforts.
pub open spec fn codex_mini_efforts() -> Seq<EffortView> {
    seq![
        EffortView { effort: ReasoningEffort::Medium, description: EFFORT_ADAPTIVE@ },
        EffortView { effort: ReasoningEffort::High, description: EFFORT_MAXIMUM@ },
    ]
}


fn codex_mini_effort_presets() -> (v: Vec<ReasoningEffortPreset>)
    ensures
        effort_views(v@) == codex_mini_efforts(),
{
    let mut v: Vec<ReasoningEffortPreset> = Vec::new();
    v.push(effort_preset(ReasoningEffort::Medium, EFFORT_ADAPTIVE));
    v.push(effort_preset(ReasoningEffort::High, EFFORT_MAXIMUM));
    assert(effort_views(v@) =~= codex_mini_efforts());
    v
}


/// The `frontier` list of reasoning efforts.
pub open spec fn frontier_efforts() -> Seq<EffortView> {
    seq![
        EffortView { effort: ReasoningEffort::Low, description: EFFORT_QUICK@ },
        EffortView { effort: ReasoningEffort::Medium, description: EFFORT_GENERAL@ },
        EffortView { effort: ReasoningEffort::High, description: EFFORT_MAXIMUM@ },
        EffortView { effort: ReasoningEffort::XHigh, description: EFFORT_EXTRA_HIGH@ },
    ]
}


fn frontier_effort_presets() -> (v: Vec<ReasoningEffortPreset>)
    ensures
        effort_views(v@) == frontier_efforts(),
{
    let mut v: Vec<ReasoningEffortPreset> = Vec::new();
    v.push(effort_preset(ReasoningEffort::Low, EFFORT_QUICK));
    v.push(effort_preset(ReasoningEffort::Medium, EFFORT_GENERAL));
    v.push(effort_preset(ReasoningEffort::High, EFFORT_MAXIMUM));
    v.push(effort_preset(ReasoningEffort::XHigh, EFFORT_EXTRA_HIGH));
    assert(effort_views(v@) =~= frontier_efforts());
    v
}


/// The `legacy_codex` list of reasoning efforts.
pub open spec fn legacy_codex_efforts() -> Seq<EffortView> {
    seq![
        EffortView { effort: ReasoningEffort::Low, description: EFFORT_FASTEST_LIMITED@ },
        EffortView { effort: ReasoningEffort::Medium, description: EFFORT_ADAPTIVE@ },
        EffortView { effort: ReasoningEffort::High, description: EFFORT_MAXIMUM@ },
    ]
}


fn legacy_codex_effort_presets() -> (v: Vec<ReasoningEffortPreset>)
    ensures
        effort_views(v@) == legacy_codex_efforts(),
{
    let mut v: Vec<ReasoningEffortPreset> = Vec::new();
    v.push(effort_preset(ReasoningEffort::Low, EFFORT_FASTEST_LIMITED));
    v.push(effort_preset(ReasoningEffort::Medium, EFFORT_ADAPTIVE));
    v.push(effort_preset(ReasoningEffort::High, EFFORT_MAXIMUM));
    assert(effort_views(v@) =~= legacy_codex_efforts());
    v
}


/// The `gpt_5` list of reasoning efforts.
pub open spec fn gpt_5_efforts() -> Seq<EffortView> {
    seq![
        EffortView { effort: ReasoningEffort::Minimal, description: EFFORT_FASTEST_LITTLE@ },
        EffortView { effort: ReasoningEffort::Low, description: EFFORT_QUICK@ },
        EffortView { effort: ReasoningEffort::Medium, description: EFFORT_GENERAL@ },
        EffortView { effort: ReasoningEffort::High, description: EFFORT_MAXIMUM@ },
    ]
}


fn gpt_5_effort_presets() -> (v: Vec<ReasoningEffortPreset>)
    ensures
        effort_views(v@) == gpt_5_efforts(),
{
    let mut v: Vec<ReasoningEffortPreset> = Vec::new();
    v.push(effort_preset(ReasoningEffort::Minimal, EFFORT_FASTEST_LITTLE));
    v.push(effort_preset(ReasoningEffort::Low, EFFORT_QUICK));
    v.push(effort_preset(ReasoningEffort::Medium, EFFORT_GENERAL));
    v.push(effort_preset(ReasoningEffort::High, EFFORT_MAXIMUM));
    assert(effort_views(v@) =~= gpt_5_efforts());
    v
}


/// The `gpt_51` list of reasoning efforts.
pub open spec fn gpt_51_efforts() -> Seq<EffortView> {
    seq![
        EffortView { effort: ReasoningEffort::Low, description: EFFORT_QUICK@ },
        EffortView { effort: ReasoningEffort::Medium, description: EFFORT_GENERAL@ },
        EffortView { effort: ReasoningEffort::High, description: EFFORT_MAXIMUM@ },
    ]
}


fn gpt_51_effort_presets() -> (v: Vec<ReasoningEffortPreset>)
    ensures
        effort_views(v@) == gpt_51_efforts(),
{
    let mut v: Vec<ReasoningEffortPreset> = Vec::new();
    v.push(effort_preset(ReasoningEffort::Low, EFFORT_QUICK));
    v.push(effort_preset(ReasoningEffort::Medium, EFFORT_GENERAL));
    v.push(effort_preset(ReasoningEffort::High, EFFORT_MAXIMUM));
    assert(effort_views(v@) =~= gpt_51_efforts());
    v
}


/// The upgrade to gpt-5.2-codex, as announced to users of older models.
pub open spec fn gpt_52_codex_upgrade_view() -> UpgradeView {
    UpgradeView {
        id: GPT_52_CODEX@,
        reasoning_effort_mapping: None,
        migration_config_key: GPT_52_CODEX@,
        model_link: Some(UPGRADE_MODEL_LINK@),
        upgrade_copy: Some(UPGRADE_COPY@),
        migration_markdown: Some(UPGRADE_MIGRATION_MARKDOWN@),
    }
}

/// The upgrade to gpt-5.2-codex.
pub fn gpt_52_codex_upgrade() -> (u: ModelUpgrade)
    ensures
        u@ == gpt_52_codex_upgrade_view(),
{
    ModelUpgrade {
        id: String::from_str(GPT_52_CODEX),
        reasoning_effort_mapping: None,
        migration_config_key: String::from_str(GPT_52_CODEX),
        model_link: Some(String::from_str(UPGRADE_MODEL_LINK)),
        upgrade_copy: Some(String::from_str(UPGRADE_COPY)),
        migration_markdown: Some(String::from_str(UPGRADE_MIGRATION_MARKDOWN)),
    }
}

/// A preset whose id, model and display name are all `name`, whose default
/// effort is medium and which the API supports.
pub open spec fn preset_view(
    name: Seq<char>,
    description: Seq<char>,
    efforts: Seq<EffortView>,
    supports_personality: bool,
    is_default: bool,
    upgrade: Option<UpgradeView>,
    show_in_picker: bool,
) -> PresetView {
    PresetView {
        id: name,
        model: name,
        display_name: name,
        description,
        default_reasoning_effort: ReasoningEffort::Medium,
        supported_reasoning_efforts: efforts,
        supports_personality,
        is_default,
        upgrade,
        show_in_picker,
        supported_in_api: true,
    }
}

fn preset(
    name: &str,
    description: &str,
    efforts: Vec<ReasoningEffortPreset>,
    supports_personality: bool,
    is_default: bool,
    upgraded: bool,
    show_in_picker: bool,
) -> (p: ModelPreset)
    ensures
        p@ == preset_view(
            name@,
            description@,
            effort_views(efforts@),
            supports_personality,
            is_default,
            if upgraded { Some(gpt_52_codex_upgrade_view()) } else { None },
            show_in_picker,
        ),
{
    ModelPreset {
        id: String::from_str(name),
        model: String::from_str(name),
        display_name: String::from_str(name),
        description: String::from_str(description),
        default_reasoning_effort: ReasoningEffort::Medium,
        supported_reasoning_efforts: efforts,
        supports_personality,
        is_default,
        upgrade: if upgraded { Some(gpt_52_codex_upgrade()) } else { None },
        show_in_picker,
        supported_in_api: true,
    }
}


/// Every built-in preset, in the order the picker lists them: first the
/// current models, then the deprecated ones.
pub open spec fn preset_table() -> Seq<PresetView> {
    seq![
        preset_view(GPT_52_CODEX@, DESCRIPTION_GPT_52_CODEX@, codex_efforts(), true, true, None, true),
        preset_view(GPT_51_CODEX_MAX@, DESCRIPTION_GPT_51_CODEX_MAX@, codex_efforts(), false, false, Some(gpt_52_codex_upgrade_view()), true),
        preset_view(GPT_51_CODEX_MINI@, DESCRIPTION_CODEX_MINI@, codex_mini_efforts(), false, false, Some(gpt_52_codex_upgrade_view()), true),
        preset_view(GPT_52@, DESCRIPTION_GPT_52@, frontier_efforts(), false, false, Some(gpt_52_codex_upgrade_view()), true),
        preset_view(BENGALFOX@, BENGALFOX@, codex_efforts(), true, false, None, false),
        preset_view(BOOMSLANG@, BOOMSLANG@, frontier_efforts(), false, false, None, false),
        preset_view(GPT_5_CODEX@, DESCRIPTION_CODEX@, legacy_codex_efforts(), false, false, Some(gpt_52_codex_upgrade_view()), false),
        preset_view(GPT_5_CODEX_MINI@, DESCRIPTION_CODEX_MINI@, codex_mini_efforts(), false, false, Some(gpt_52_codex_upgrade_view()), false),
        preset_view(GPT_51_CODEX@, DESCRIPTION_CODEX@, legacy_codex_efforts(), false, false, Some(gpt_52_codex_upgrade_view()), false),
        preset_view(GPT_5@, DESCRIPTION_GPT_5@, gpt_5_efforts(), false, false, Some(gpt_52_codex_upgrade_view()), false),
        preset_view(GPT_51@, DESCRIPTION_GPT_5@, gpt_51_efforts(), false, false, Some(gpt_52_codex_upgrade_view()), false),
    ]
}


/// Every built-in model preset.
pub fn all_model_presets() -> (v: Vec<ModelPreset>)
    ensures
        preset_views(v@) == preset_table(),
{
    let mut v: Vec<ModelPreset> = Vec::new();
    v.push(preset(GPT_52_CODEX, DESCRIPTION_GPT_52_CODEX, codex_effort_presets(), true, true, false, true));
    v.push(preset(GPT_51_CODEX_MAX, DESCRIPTION_GPT_51_CODEX_MAX, codex_effort_presets(), false, false, true, true));
    v.push(preset(GPT_51_CODEX_MINI, DESCRIPTION_CODEX_MINI, codex_mini_effort_presets(), false, false, true, true));
    v.push(preset(GPT_52, DESCRIPTION_GPT_52, frontier_effort_presets(), false, false, true, true));
    v.push(preset(BENGALFOX, BENGALFOX, codex_effort_presets(), true, false, false, false));
    v.push(preset(BOOMSLANG, BOOMSLANG, frontier_effort_presets(), false, false, false, false));
    v.push(preset(GPT_5_CODEX, DESCRIPTION_CODEX, legacy_codex_effort_presets(), false, false, true, false));
    v.push(preset(GPT_5_CODEX_MINI, DESCRIPTION_CODEX_MINI, codex_mini_effort_presets(), false, false, true, false));
    v.push(preset(GPT_51_CODEX, DESCRIPTION_CODEX, legacy_codex_effort_presets(), false, false, true, false));
    v.push(preset(GPT_5, DESCRIPTION_GPT_5, gpt_5_effort_presets(), false, false, true, false));
    v.push(preset(GPT_51, DESCRIPTION_GPT_5, gpt_51_effort_presets(), false, false, true, false));
    assert(preset_views(v@) =~= preset_table());
    v
}

/// The built-in model presets; they are the same whatever the sign-in mode.
pub fn builtin_model_presets(auth_mode: Option<AuthMode>) -> (v: Vec<ModelPreset>)
    ensures
        preset_views(v@) == preset_table(),
{
    all_model_presets()
}


/// The presets in order, each with the reasoning efforts it offers and how
/// each effort is described.
pub proof fn lemma_preset_efforts()
    ensures
        preset_table().len() == 11,
        preset_table()[0].id == "gpt-5.2-codex"@,
        preset_table()[0].supported_reasoning_efforts == seq![
            EffortView { effort: ReasoningEffort::Low, description: "更轻量推理的快速响应"@ },
            EffortView { effort: ReasoningEffort::Medium, description: "兼顾速度与推理深度，适合日常任务"@ },
            EffortView { effort: ReasoningEffort::High, description: "复杂问题的更深推理"@ },
            EffortView { effort: ReasoningEffort::XHigh, description: "复杂问题的超高推理深度"@ },
        ],
        preset_table()[1].id == "gpt-5.1-codex-max"@,
        preset_table()[1].supported_reasoning_efforts == seq![
            EffortView { effort: ReasoningEffort::Low, description: "更轻量推理的快速响应"@ },
            EffortView { effort: ReasoningEffort::Medium, description: "兼顾速度与推理深度，适合日常任务"@ },
            EffortView { effort: ReasoningEffort::High, description: "复杂问题的更深推理"@ },
            EffortView { effort: ReasoningEffort::XHigh, description: "复杂问题的超高推理深度"@ },
        ],
        preset_table()[2].id == "gpt-5.1-codex-mini"@,
        preset_table()[2].supported_reasoning_efforts == seq![
            EffortView { effort: ReasoningEffort::Medium, description: "根据任务动态调整推理"@ },
            EffortView { effort: ReasoningEffort::High, description: "为复杂或模糊问题最大化推理深度"@ },
        ],
        preset_table()[3].id == "gpt-5.2"@,
        preset_table()[3].supported_reasoning_efforts == seq![
            EffortView { effort: ReasoningEffort::Low, description: "兼顾速度与一定推理；适合直接问题和短解释"@ },
            EffortView { effort: ReasoningEffort::Medium, description: "在通用任务上平衡推理深度与延迟"@ },
            EffortView { effort: ReasoningEffort::High, description: "为复杂或模糊问题最大化推理深度"@ },
            EffortView { effort: ReasoningEffort::XHigh, description: "复杂问题的超高推理深度"@ },
        ],
        preset_table()[4].id == "bengalfox"@,
        preset_table()[4].supported_reasoning_efforts == seq![
            EffortView { effort: ReasoningEffort::Low, description: "更轻量推理的快速响应"@ },
            EffortView { effort: ReasoningEffort::Medium, description: "兼顾速度与推理深度，适合日常任务"@ },
            EffortView { effort: ReasoningEffort::High, description: "复杂问题的更深推理"@ },
            EffortView { effort: ReasoningEffort::XHigh, description: "复杂问题的超高推理深度"@ },
        ],
        preset_table()[5].id == "boomslang"@,
        preset_table()[5].supported_reasoning_efforts == seq![
            EffortView { effort: ReasoningEffort::Low, description: "兼顾速度与一定推理；适合直接问题和短解释"@ },
            EffortView { effort: ReasoningEffort::Medium, description: "在通用任务上平衡推理深度与延迟"@ },
            EffortView { effort: ReasoningEffort::High, description: "为复杂或模糊问题最大化推理深度"@ },
            EffortView { effort: ReasoningEffort::XHigh, description: "复杂问题的超高推理深度"@ },
        ],
        preset_table()[6].id == "gpt-5-codex"@,
        preset_table()[6].supported_reasoning_efforts == seq![
            EffortView { effort: ReasoningEffort::Low, description: "推理受限但速度最快"@ },
            EffortView { effort: ReasoningEffort::Medium, description: "根据任务动态调整推理"@ },
            EffortView { effort: ReasoningEffort::High, description: "为复杂或模糊问题最大化推理深度"@ },
        ],
        preset_table()[7].id == "gpt-5-codex-mini"@,
        preset_table()[7].supported_reasoning_efforts == seq![
            EffortView { effort: ReasoningEffort::Medium, description: "根据任务动态调整推理"@ },
            EffortView { effort: ReasoningEffort::High, description: "为复杂或模糊问题最大化推理深度"@ },
        ],
        preset_table()[8].id == "gpt-5.1-codex"@,
        preset_table()[8].supported_reasoning_efforts == seq![
            EffortView { effort: ReasoningEffort::Low, description: "推理受限但速度最快"@ },
            EffortView { effort: ReasoningEffort::Medium, description: "根据任务动态调整推理"@ },
            EffortView { effort: ReasoningEffort::High, description: "为复杂或模糊问题最大化推理深度"@ },
        ],
        preset_table()[9].id == "gpt-5"@,
        preset_table()[9].supported_reasoning_efforts == seq![
            EffortView { effort: ReasoningEffort::Minimal, description: "推理较少但速度最快"@ },
            EffortView { effort: ReasoningEffort::Low, description: "兼顾速度与一定推理；适合直接问题和短解释"@ },
            EffortView { effort: ReasoningEffort::Medium, description: "在通用任务上平衡推理深度与延迟"@ },
            EffortView { effort: ReasoningEffort::High, description: "为复杂或模糊问题最大化推理深度"@ },
        ],
        preset_table()[10].id == "gpt-5.1"@,
        preset_table()[10].supported_reasoning_efforts == seq![
            EffortView { effort: ReasoningEffort::Low, description: "兼顾速度与一定推理；适合直接问题和短解释"@ },
            EffortView { effort: ReasoningEffort::Medium, description: "在通用任务上平衡推理深度与延迟"@ },
            EffortView { effort: ReasoningEffort::High, description: "为复杂或模糊问题最大化推理深度"@ },
        ],
{
}

/// How many presets of `s` are marked as the default.
pub open spec fn default_count(s: Seq<PresetView>) -> nat
    decreases s.len(),
{
    if s.len() == 0 {
        0
    } else {
        default_count(s.drop_last()) + if s.last().is_default {
            1nat
        } else {
            0nat
        }
    }
}

/// Exactly one built-in preset is the default: the first, gpt-5.2-codex,
/// which the picker shows.
pub proof fn lemma_one_default_preset()
    ensures
        default_count(preset_table()) == 1,
        preset_table()[0].is_default,
        preset_table()[0].id == GPT_52_CODEX@,
        preset_table()[0].show_in_picker,
{
    let t = preset_table();
    assert(t.take(1).drop_last() =~= t.take(0));
    assert(default_count(t.take(0)) == 0);
    assert(t.take(1).last() == t[0]);
    assert(default_count(t.take(1)) == 1);
    assert(t.take(2).drop_last() =~= t.take(1));
    assert(t.take(2).last() == t[1]);
    assert(default_count(t.take(2)) == 1);
    assert(t.take(3).drop_last() =~= t.take(2));
    assert(t.take(3).last() == t[2]);
    assert(default_count(t.take(3)) == 1);
    assert(t.take(4).drop_last() =~= t.take(3));
    assert(t.take(4).last() == t[3]);
    assert(default_count(t.take(4)) == 1);
    assert(t.take(5).drop_last() =~= t.take(4));
    assert(t.take(5).last() == t[4]);
    assert(default_count(t.take(5)) == 1);
    assert(t.take(6).drop_last() =~= t.take(5));
    assert(t.take(6).last() == t[5]);
    assert(default_count(t.take(6)) == 1);
    assert(t.take(7).drop_last() =~= t.take(6));
    assert(t.take(7).last() == t[6]);
    assert(default_count(t.take(7)) == 1);
    assert(t.take(8).drop_last() =~= t.take(7));
    assert(t.take(8).last() == t[7]);
    assert(default_count(t.take(8)) == 1);
    assert(t.take(9).drop_last() =~= t.take(8));
    assert(t.take(9).last() == t[8]);
    assert(default_count(t.take(9)) == 1);
    assert(t.take(10).drop_last() =~= t.take(9));
    assert(t.take(10).last() == t[9]);
    assert(default_count(t.take(10)) == 1);
    assert(t.take(11).drop_last() =~= t.take(10));
    assert(t.take(11).last() == t[10]);
    assert(default_count(t.take(11)) == 1);
    assert(t.take(11) =~= t);
}

/// Every preset that offers an upgrade offers the one to the default preset.
pub proof fn lemma_upgrades_lead_to_default(i: int)
    requires
        0 <= i < preset_table().len(),
    ensures
        preset_table()[i].upgrade matches Some(u) ==> u.id == preset_table()[0].id,
{
}

} // verus!
