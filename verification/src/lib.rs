//! Broadcast-automation controller core: the show-scheduling logic that
//! decides which on-air scene a cable channel should present at any instant,
//! when to transition, and when to seize the external automation system at a
//! program boundary.

mod composer;
mod cycle;
mod display;
mod inputs;
mod resolver;
mod scene;
mod schedule;
mod sequencer;
mod supervisor;

pub use composer::TemplateFiles;
pub use composer::VideoRect;
pub use composer::background_settings;
pub use composer::build_program;
pub use composer::compose_program_scene;
pub use composer::extract_video_rect;
pub use composer::fallback;
pub use composer::fallback_scene_shape;
pub use composer::lemma_aspect_boundary;
pub use composer::lemma_fallback_idempotent;
pub use composer::program_scale;
pub use composer::program_scene_shape;
pub use composer::render_overlay;
pub use composer::render_template;
pub use composer::replaced;
pub use composer::substituted_page;
pub use composer::svg_video_rect;
pub use composer::template_folder;
pub use composer::video_rect_of;
pub use cycle::plan_cycle;
pub use display::Display;
pub use display::clamp_u32;
pub use display::fit_spec;
pub use display::fit_window;
pub use inputs::InputSource;
pub use inputs::NamedProperty;
pub use inputs::NullError;
pub use inputs::Properties;
pub use inputs::Property;
pub use inputs::PropertyItem;
pub use inputs::first_property;
pub use inputs::hardware_input_settings_spec;
pub use inputs::input_source_for;
pub use inputs::playout_output_settings;
pub use inputs::playout_output_settings_spec;
pub use inputs::select_input;
pub use inputs::select_output;
pub use inputs::static_image_path;
pub use inputs::static_image_settings_spec;
pub use resolver::ResolveError;
pub use resolver::ResolvedProgram;
pub use resolver::first_file_for_show;
pub use resolver::first_matching_summary;
pub use resolver::first_show_with_id;
pub use resolver::lemma_event_summary_missing;
pub use resolver::resolve;
pub use resolver::summary_matches;
pub use scene::CropBox;
pub use scene::Data;
pub use scene::Output;
pub use scene::Scale;
pub use scene::Scene;
pub use scene::SceneItem;
pub use scene::Setting;
pub use scene::SettingV;
pub use scene::SettingValue;
pub use scene::SettingValueV;
pub use scene::Source;
pub use scene::SourceV;
pub use scene::scale_one;
pub use schedule::DigitalFile;
pub use schedule::EventSummary;
pub use schedule::ScheduleSnapshot;
pub use schedule::Show;
pub use schedule::SwitchConfig;
pub use sequencer::AutomationCall;
pub use sequencer::AutomationOverrideBody;
pub use sequencer::ForceEventBody;
pub use sequencer::ForceEventFailed;
pub use sequencer::LiveAction;
pub use sequencer::PollDecision;
pub use sequencer::SceneChoice;
pub use sequencer::SequencerState;
pub use sequencer::SwitchEventBody;
pub use sequencer::after_live_sleep;
pub use sequencer::cycle_outcome;
pub use sequencer::decide;
pub use sequencer::decide_spec;
pub use sequencer::lead_seconds;
pub use sequencer::lemma_live_exactly_one_switch;
pub use sequencer::lemma_out_of_scope_no_calls;
pub use sequencer::live_actions;
pub use sequencer::live_actions_spec;
pub use sequencer::repolls;
pub use sequencer::scene_for;
pub use sequencer::scene_spec;
pub use sequencer::state_for;
pub use sequencer::state_spec;
pub use sequencer::switch_calls;
pub use sequencer::to_wire;
pub use supervisor::PipelineError;
pub use supervisor::RecoveryStep;
pub use supervisor::recover;
