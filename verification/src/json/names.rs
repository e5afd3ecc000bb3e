//! Names of the event types on the wire.

use crate::json::EventType;
use vstd::prelude::*;

verus! {

impl EventType {
    /// The name of the event type on the wire: its words in lower case,
    /// joined by underscores.
    pub open spec fn spec_name(self) -> Seq<char> {
        match self {
            EventType::CallService => "call_service"@,
            EventType::ComponentLoaded => "component_loaded"@,
            EventType::CoreConfigUpdated => "core_config_updated"@,
            EventType::DataEntryFlowProgressed => "data_entry_flow_progressed"@,
            EventType::HomeassistantStart => "homeassistant_start"@,
            EventType::HomeassistantStarted => "homeassistant_started"@,
            EventType::HomeassistantStop => "homeassistant_stop"@,
            EventType::HomeassistantFinalWrite => "homeassistant_final_write"@,
            EventType::HomeassistantClose => "homeassistant_close"@,
            EventType::LogbookEntry => "logbook_entry"@,
            EventType::ServiceRegistered => "service_registered"@,
            EventType::ServiceRemoved => "service_removed"@,
            EventType::StateChanged => "state_changed"@,
            EventType::ThemesUpdated => "themes_updated"@,
            EventType::TimerOutOfSync => "timer_out_of_sync"@,
            EventType::TimeChanged => "time_changed"@,
            EventType::UserAdded => "user_added"@,
            EventType::UserRemoved => "user_removed"@,
            EventType::AutomationReloaded => "automation_reloaded"@,
            EventType::AutomationTriggered => "automation_triggered"@,
            EventType::SceneReloaded => "scene_reloaded"@,
            EventType::ScriptStarted => "script_started"@,
            EventType::HaevloStart => "haevlo_start"@,
            EventType::HaevloStop => "haevlo_stop"@,
            EventType::Unknown => "unknown"@,
        }
    }

    /// The event type that a name on the wire stands for; `Unknown` for
    /// every name that is not the name of another event type.
    pub open spec fn spec_from_name(name: Seq<char>) -> EventType {
        if name == "call_service"@ {
            EventType::CallService
        } else if name == "component_loaded"@ {
            EventType::ComponentLoaded
        } else if name == "core_config_updated"@ {
            EventType::CoreConfigUpdated
        } else if name == "data_entry_flow_progressed"@ {
            EventType::DataEntryFlowProgressed
        } else if name == "homeassistant_start"@ {
            EventType::HomeassistantStart
        } else if name == "homeassistant_started"@ {
            EventType::HomeassistantStarted
        } else if name == "homeassistant_stop"@ {
            EventType::HomeassistantStop
        } else if name == "homeassistant_final_write"@ {
            EventType::HomeassistantFinalWrite
        } else if name == "homeassistant_close"@ {
            EventType::HomeassistantClose
        } else if name == "logbook_entry"@ {
            EventType::LogbookEntry
        } else if name == "service_registered"@ {
            EventType::ServiceRegistered
        } else if name == "service_removed"@ {
            EventType::ServiceRemoved
        } else if name == "state_changed"@ {
            EventType::StateChanged
        } else if name == "themes_updated"@ {
            EventType::ThemesUpdated
        } else if name == "timer_out_of_sync"@ {
            EventType::TimerOutOfSync
        } else if name == "time_changed"@ {
            EventType::TimeChanged
        } else if name == "user_added"@ {
            EventType::UserAdded
        } else if name == "user_removed"@ {
            EventType::UserRemoved
        } else if name == "automation_reloaded"@ {
            EventType::AutomationReloaded
        } else if name == "automation_triggered"@ {
            EventType::AutomationTriggered
        } else if name == "scene_reloaded"@ {
            EventType::SceneReloaded
        } else if name == "script_started"@ {
            EventType::ScriptStarted
        } else if name == "haevlo_start"@ {
            EventType::HaevloStart
        } else if name == "haevlo_stop"@ {
            EventType::HaevloStop
        } else {
            EventType::Unknown
        }
    }

    /// The name of the event type on the wire.
    pub fn name(&self) -> (r: &'static str)
        ensures
            r@ == self.spec_name(),
    {
        match self {
            EventType::CallService => "call_service",
            EventType::ComponentLoaded => "component_loaded",
            EventType::CoreConfigUpdated => "core_config_updated",
            EventType::DataEntryFlowProgressed => "data_entry_flow_progressed",
            EventType::HomeassistantStart => "homeassistant_start",
            EventType::HomeassistantStarted => "homeassistant_started",
            EventType::HomeassistantStop => "homeassistant_stop",
            EventType::HomeassistantFinalWrite => "homeassistant_final_write",
            EventType::HomeassistantClose => "homeassistant_close",
            EventType::LogbookEntry => "logbook_entry",
            EventType::ServiceRegistered => "service_registered",
            EventType::ServiceRemoved => "service_removed",
            EventType::StateChanged => "state_changed",
            EventType::ThemesUpdated => "themes_updated",
            EventType::TimerOutOfSync => "timer_out_of_sync",
            EventType::TimeChanged => "time_changed",
            EventType::UserAdded => "user_added",
            EventType::UserRemoved => "user_removed",
            EventType::AutomationReloaded => "automation_reloaded",
            EventType::AutomationTriggered => "automation_triggered",
            EventType::SceneReloaded => "scene_reloaded",
            EventType::ScriptStarted => "script_started",
            EventType::HaevloStart => "haevlo_start",
            EventType::HaevloStop => "haevlo_stop",
            EventType::Unknown => "unknown",
        }
    }

    /// The event type that a name on the wire stands for.
    pub fn from_name(name: &str) -> (r: EventType)
        ensures
            r == EventType::spec_from_name(name@),
    {
        if name.eq("call_service") {
            EventType::CallService
        } else if name.eq("component_loaded") {
            EventType::ComponentLoaded
        } else if name.eq("core_config_updated") {
            EventType::CoreConfigUpdated
        } else if name.eq("data_entry_flow_progressed") {
            EventType::DataEntryFlowProgressed
        } else if name.eq("homeassistant_start") {
            EventType::HomeassistantStart
        } else if name.eq("homeassistant_started") {
            EventType::HomeassistantStarted
        } else if name.eq("homeassistant_stop") {
            EventType::HomeassistantStop
        } else if name.eq("homeassistant_final_write") {
            EventType::HomeassistantFinalWrite
        } else if name.eq("homeassistant_close") {
            EventType::HomeassistantClose
        } else if name.eq("logbook_entry") {
            EventType::LogbookEntry
        } else if name.eq("service_registered") {
            EventType::ServiceRegistered
        } else if name.eq("service_removed") {
            EventType::ServiceRemoved
        } else if name.eq("state_changed") {
            EventType::StateChanged
        } else if name.eq("themes_updated") {
            EventType::ThemesUpdated
        } else if name.eq("timer_out_of_sync") {
            EventType::TimerOutOfSync
        } else if name.eq("time_changed") {
            EventType::TimeChanged
        } else if name.eq("user_added") {
            EventType::UserAdded
        } else if name.eq("user_removed") {
            EventType::UserRemoved
        } else if name.eq("automation_reloaded") {
            EventType::AutomationReloaded
        } else if name.eq("automation_triggered") {
            EventType::AutomationTriggered
        } else if name.eq("scene_reloaded") {
            EventType::SceneReloaded
        } else if name.eq("script_started") {
            EventType::ScriptStarted
        } else if name.eq("haevlo_start") {
            EventType::HaevloStart
        } else if name.eq("haevlo_stop") {
            EventType::HaevloStop
        } else {
            EventType::Unknown
        }
    }
}

/// What the names are made of.
proof fn lemma_names_revealed()
    ensures
        "call_service"@.len() == 12,
        "component_loaded"@.len() == 16,
        "core_config_updated"@.len() == 19,
        "data_entry_flow_progressed"@.len() == 26,
        "homeassistant_start"@.len() == 19,
        "homeassistant_started"@.len() == 21,
        "homeassistant_stop"@.len() == 18,
        "homeassistant_final_write"@.len() == 25,
        "homeassistant_close"@.len() == 19,
        "logbook_entry"@.len() == 13,
        "service_registered"@.len() == 18,
        "service_removed"@.len() == 15,
        "state_changed"@.len() == 13,
        "themes_updated"@.len() == 14,
        "timer_out_of_sync"@.len() == 17,
        "time_changed"@.len() == 12,
        "user_added"@.len() == 10,
        "user_removed"@.len() == 12,
        "automation_reloaded"@.len() == 19,
        "automation_triggered"@.len() == 20,
        "scene_reloaded"@.len() == 14,
        "script_started"@.len() == 14,
        "haevlo_start"@.len() == 12,
        "haevlo_stop"@.len() == 11,
        "unknown"@.len() == 7,
        "automation_reloaded"@[0] == 'a',
        "call_service"@[0] == 'c',
        "core_config_updated"@[0] == 'c',
        "haevlo_start"@[0] == 'h',
        "homeassistant_close"@[0] == 'h',
        "homeassistant_close"@[14] == 'c',
        "homeassistant_start"@[0] == 'h',
        "homeassistant_start"@[14] == 's',
        "homeassistant_stop"@[0] == 'h',
        "logbook_entry"@[0] == 'l',
        "scene_reloaded"@[0] == 's',
        "scene_reloaded"@[2] == 'e',
        "script_started"@[0] == 's',
        "script_started"@[2] == 'r',
        "service_registered"@[0] == 's',
        "state_changed"@[0] == 's',
        "themes_updated"@[0] == 't',
        "time_changed"@[0] == 't',
        "user_removed"@[0] == 'u',
{
    reveal_strlit("call_service");
    reveal_strlit("component_loaded");
    reveal_strlit("core_config_updated");
    reveal_strlit("data_entry_flow_progressed");
    reveal_strlit("homeassistant_start");
    reveal_strlit("homeassistant_started");
    reveal_strlit("homeassistant_stop");
    reveal_strlit("homeassistant_final_write");
    reveal_strlit("homeassistant_close");
    reveal_strlit("logbook_entry");
    reveal_strlit("service_registered");
    reveal_strlit("service_removed");
    reveal_strlit("state_changed");
    reveal_strlit("themes_updated");
    reveal_strlit("timer_out_of_sync");
    reveal_strlit("time_changed");
    reveal_strlit("user_added");
    reveal_strlit("user_removed");
    reveal_strlit("automation_reloaded");
    reveal_strlit("automation_triggered");
    reveal_strlit("scene_reloaded");
    reveal_strlit("script_started");
    reveal_strlit("haevlo_start");
    reveal_strlit("haevlo_stop");
    reveal_strlit("unknown");
}

/// Every event type is what its own name stands for.
pub proof fn lemma_name_round_trip(e: EventType)
    ensures
        EventType::spec_from_name(e.spec_name()) == e,
{
    lemma_names_revealed();
}

/// A name that stands for `Unknown` aside, reading a name and writing it
/// again gives the same name; and the name that is written for what was read
/// is the name that was read exactly if that is the name of an event type.
pub proof fn lemma_name_kept_iff_known(name: Seq<char>)
    ensures
        EventType::spec_from_name(name) != EventType::Unknown ==> EventType::spec_from_name(
            name,
        ).spec_name() == name,
        EventType::spec_from_name(name).spec_name() == name <==> exists|e: EventType|
            e.spec_name() == name,
{
    if exists|e: EventType| e.spec_name() == name {
        let e = choose|e: EventType| e.spec_name() == name;
        lemma_name_round_trip(e);
    }
}

} // verus!
