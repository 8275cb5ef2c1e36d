//! What the messages and the status file say, said of each call by what goes
//! in and what comes out.
use vstd::prelude::*;

use crate::clock::{shown, Moment, WallClock};
use crate::device::{brightness_json, brightness_request, register_json, BrightnessRequest};
use crate::json::{content, json_text, Json};
use crate::laws_of_effects::is_due;
use crate::laws_of_text::{decimal_is_number, is_duration, is_number, mmss_is_duration};
use crate::laws_of_values::{are_day_values, are_values_for, sums_fit, sums_that_fit_are_enough};
use crate::report::{inspector_json, secs_left};
use crate::settings::EffSettings;
use crate::state::{Observation, Phase, SleepState};
use crate::text::{decimal, mmss};

verus! {

/// The member of an object at this key.
pub open spec fn member(object: Json, key: Seq<char>) -> Json {
    object->Object_0[key]
}

/// The value is an object with these members and no others.
pub open spec fn has_exactly(object: Json, keys: Set<Seq<char>>) -> bool {
    object is Object && object->Object_0.dom() == keys
}

/// The value is a message of this event to this instance, with a payload.
pub open spec fn is_message(message: Json, event: Seq<char>, context: Seq<char>) -> bool {
    &&& member(message, "event"@) == Json::Text(event)
    &&& member(message, "context"@) == Json::Text(context)
}

/// The title says what goes on: `Inactive` while the mode is disabled, and the
/// phase otherwise.
pub open spec fn title_says(title: Json, phase: Phase, enabled: bool) -> bool {
    &&& !enabled ==> title == Json::Text("Inactive"@)
    &&& enabled && phase is Awake ==> title == Json::Text("Active"@)
    &&& enabled && phase is Dim ==> title == Json::Text("Dim"@)
    &&& enabled && phase is Off ==> title == Json::Text("Off"@)
}

/// The image is the one of the phase: the first also while the mode is
/// disabled.
pub open spec fn image_shows(image: Json, phase: Phase, enabled: bool) -> bool {
    &&& !enabled || phase is Awake ==> image == Json::Number(0)
    &&& enabled && phase is Dim ==> image == Json::Number(1)
    &&& enabled && phase is Off ==> image == Json::Number(2)
}

/// The status in the inspector says what goes on.
pub open spec fn status_says(status: Json, phase: Phase, enabled: bool) -> bool {
    &&& !enabled ==> status == Json::Text("Disabled"@)
    &&& enabled && phase is Awake ==> status == Json::Text("Active"@)
    &&& enabled && phase is Dim ==> status == Json::Text("Dimmed"@)
    &&& enabled && phase is Off ==> status == Json::Text("Display off"@)
}

/// The text counts down to the end of `delay`: it is the time that is left of
/// it after `elapsed` seconds, and a dash from its end on.
pub open spec fn counts_down(shown_text: Json, delay: u64, elapsed: u64) -> bool {
    &&& elapsed < delay ==> shown_text is Text && is_duration(
        shown_text->Text_0,
        delay - elapsed,
    )
    &&& elapsed >= delay ==> shown_text == Json::Text("–"@)
}

/// The payload tells the inspector how things stand: whatever the phase, the
/// two countdowns go by the delays alone.
pub open spec fn payload_tells(
    payload: Json,
    phase: Phase,
    enabled: bool,
    elapsed: u64,
    eff: EffSettings,
) -> bool {
    &&& has_exactly(
        payload,
        set!["status"@, "until_dim"@, "until_off"@, "night_active"@, "version"@],
    )
    &&& status_says(member(payload, "status"@), phase, enabled)
    &&& enabled ==> counts_down(member(payload, "until_dim"@), eff.dim_at, elapsed)
    &&& !enabled ==> member(payload, "until_dim"@) == Json::Text("–"@)
    &&& enabled && !eff.no_off ==> counts_down(
        member(payload, "until_off"@),
        eff.off_at,
        elapsed,
    )
    &&& !enabled || eff.no_off ==> member(payload, "until_off"@) == Json::Text("–"@)
    &&& member(payload, "night_active"@) == Json::Flag(eff.is_night)
    &&& member(payload, "version"@) == Json::Text("1.4.0"@)
}

/// The value is the message that tells the inspector how things stand.
pub open spec fn inspector_is_told(
    message: Json,
    context: Seq<char>,
    phase: Phase,
    enabled: bool,
    elapsed: u64,
    eff: EffSettings,
) -> bool {
    &&& has_exactly(message, set!["event"@, "context"@, "action"@, "payload"@])
    &&& is_message(message, "sendToPropertyInspector"@, context)
    &&& member(message, "action"@) == Json::Text("com.rainer.sleepmode.toggle"@)
    &&& payload_tells(member(message, "payload"@), phase, enabled, elapsed, eff)
}

/// No two of the keys are alike.
proof fn keys_differ()
    ensures
        "event"@ != "context"@,
        "event"@ != "payload"@,
        "event"@ != "action"@,
        "event"@ != "uuid"@,
        "event"@ != "value"@,
        "context"@ != "payload"@,
        "context"@ != "action"@,
        "payload"@ != "action"@,
        "action"@ != "value"@,
        "title"@ != "target"@,
        "status"@ != "until_dim"@,
        "status"@ != "until_off"@,
        "status"@ != "night_active"@,
        "status"@ != "version"@,
        "until_dim"@ != "until_off"@,
        "until_dim"@ != "night_active"@,
        "until_dim"@ != "version"@,
        "until_off"@ != "night_active"@,
        "until_off"@ != "version"@,
        "night_active"@ != "version"@,
{
    reveal_strlit("event");
    reveal_strlit("context");
    reveal_strlit("payload");
    reveal_strlit("action");
    reveal_strlit("uuid");
    reveal_strlit("value");
    reveal_strlit("title");
    reveal_strlit("target");
    reveal_strlit("status");
    reveal_strlit("until_dim");
    reveal_strlit("until_off");
    reveal_strlit("night_active");
    reveal_strlit("version");
    assert("event"@.len() == 5);
    assert("context"@.len() == 7);
    assert("payload"@.len() == 7);
    assert("action"@.len() == 6);
    assert("uuid"@.len() == 4);
    assert("value"@.len() == 5);
    assert("title"@.len() == 5);
    assert("target"@.len() == 6);
    assert("status"@.len() == 6);
    assert("until_dim"@.len() == 9);
    assert("until_off"@.len() == 9);
    assert("night_active"@.len() == 12);
    assert("version"@.len() == 7);
    assert("event"@[0] != "value"@[0]);
    assert("context"@[0] != "payload"@[0]);
    assert("until_dim"@[6] != "until_off"@[6]);
}

/// The button is shown title and image of the phase and the mode, in two
/// messages to its instance; as long as there is none, in no message.
pub proof fn button_shows_phase_and_mode(
    state: SleepState,
    phase: Phase,
    enabled: bool,
    messages: Vec<serde_json::Value>,
)
    requires
        call_ensures(SleepState::button_messages, (&state, &phase, enabled), messages),
    ensures
        state.context@.len() == 0 <==> messages@.len() == 0,
        state.context@.len() > 0 ==> {
            let first = content(messages@[0]);
            let second = content(messages@[1]);
            &&& messages@.len() == 2
            &&& has_exactly(first, set!["event"@, "context"@, "payload"@])
            &&& is_message(first, "setTitle"@, state.context@)
            &&& has_exactly(member(first, "payload"@), set!["title"@, "target"@])
            &&& title_says(member(member(first, "payload"@), "title"@), phase, enabled)
            &&& member(member(first, "payload"@), "target"@) == Json::Number(0)
            &&& has_exactly(second, set!["event"@, "context"@, "payload"@])
            &&& is_message(second, "setState"@, state.context@)
            &&& has_exactly(member(second, "payload"@), set!["state"@])
            &&& image_shows(member(member(second, "payload"@), "state"@), phase, enabled)
        },
{
    keys_differ();
    if state.context@.len() > 0 {
        let first = content(messages@[0]);
        let second = content(messages@[1]);
        assert(first->Object_0.dom() =~= set!["event"@, "context"@, "payload"@]);
        assert(member(first, "payload"@)->Object_0.dom() =~= set!["title"@, "target"@]);
        assert(second->Object_0.dom() =~= set!["event"@, "context"@, "payload"@]);
        assert(member(second, "payload"@)->Object_0.dom() =~= set!["state"@]);
    }
}

proof fn inspector_json_tells(
    context: Seq<char>,
    phase: Phase,
    enabled: bool,
    elapsed: u64,
    eff: EffSettings,
)
    ensures
        inspector_is_told(
            inspector_json(context, phase, enabled, elapsed, eff),
            context,
            phase,
            enabled,
            elapsed,
            eff,
        ),
{
    keys_differ();
    let message = inspector_json(context, phase, enabled, elapsed, eff);
    let payload = member(message, "payload"@);
    assert(message->Object_0.dom() =~= set!["event"@, "context"@, "action"@, "payload"@]);
    assert(payload->Object_0.dom() =~= set![
        "status"@,
        "until_dim"@,
        "until_off"@,
        "night_active"@,
        "version"@,
    ]);
    if elapsed < eff.dim_at {
        mmss_is_duration((eff.dim_at - elapsed) as nat);
    }
    if elapsed < eff.off_at {
        mmss_is_duration((eff.off_at - elapsed) as nat);
    }
}

/// The inspector is told status, countdowns and night for the time since the
/// last activity and the time of day. Whatever the phase, while the mode is
/// enabled the countdown to switching off is the time that is left until then,
/// and a dash exactly from then on, unless switching off is ruled out; and
/// likewise the one to dimming. As long as there is no instance, nothing is
/// told.
pub proof fn inspector_is_told_how_things_stand(
    state: SleepState,
    phase: Phase,
    enabled: bool,
    at: Moment,
    now: WallClock,
    message: Option<serde_json::Value>,
)
    requires
        now.hour < 24,
        now.minute < 60,
        sums_fit(state.settings, now),
        call_ensures(
            SleepState::inspector_message_at,
            (&state, &phase, enabled, &at, &now),
            message,
        ),
    ensures
        call_requires(
            SleepState::inspector_message_at,
            (&state, &phase, enabled, &at, &now),
        ),
        message is None <==> state.context@.len() == 0,
        message matches Some(value) ==> exists|eff: EffSettings| #[trigger]
            are_values_for(eff, state.settings, now) && inspector_is_told(
                content(value),
                state.context@,
                phase,
                enabled,
                at.secs_since(state.last_activity),
                eff,
            ),
{
    assert(state.settings.fits_at(now));
    let eff = state.settings.values_at(now);
    assert(are_values_for(eff, state.settings, now));
    inspector_json_tells(
        state.context@,
        phase,
        enabled,
        at.secs_since(state.last_activity),
        eff,
    );
}

/// By the local clock, the inspector is told how things stand at the time that
/// it shows.
pub proof fn inspector_follows_the_local_clock(
    state: SleepState,
    phase: Phase,
    enabled: bool,
    at: Moment,
    message: Option<serde_json::Value>,
)
    requires
        forall|now: WallClock|
            now.hour < 24 && now.minute < 60 ==> #[trigger] sums_fit(state.settings, now),
        call_ensures(SleepState::inspector_message, (&state, &phase, enabled, &at), message),
    ensures
        message is None <==> state.context@.len() == 0,
        state.settings.night_enabled ==> (message matches Some(value) ==> exists|
            now: WallClock,
            eff: EffSettings,
        |
            #[trigger] shown(now) && now.hour < 24 && now.minute < 60 && #[trigger]
            are_values_for(eff, state.settings, now) && inspector_is_told(
                content(value),
                state.context@,
                phase,
                enabled,
                at.secs_since(state.last_activity),
                eff,
            )),
        !state.settings.night_enabled ==> (message matches Some(value) ==> exists|
            eff: EffSettings,
        | #[trigger]
            are_day_values(eff, state.settings) && inspector_is_told(
                content(value),
                state.context@,
                phase,
                enabled,
                at.secs_since(state.last_activity),
                eff,
            )),
{
    sums_that_fit_are_enough(state.settings);
    let elapsed = at.secs_since(state.last_activity);
    let midnight = WallClock { hour: 0, minute: 0 };
    assert(sums_fit(state.settings, midnight));
    match message {
        Some(value) => {
            if state.settings.night_enabled {
                let now = choose|now: WallClock| #[trigger]
                    shown(now) && now.wf() && content(value) == inspector_json(
                        state.context@,
                        phase,
                        enabled,
                        elapsed,
                        state.settings.values_at(now),
                    );
                assert(shown(now));
                assert(sums_fit(state.settings, now));
                let eff = state.settings.values_at(now);
                assert(are_values_for(eff, state.settings, now));
                inspector_json_tells(state.context@, phase, enabled, elapsed, eff);
            } else {
                let eff = state.settings.values(false);
                assert(are_day_values(eff, state.settings));
                inspector_json_tells(state.context@, phase, enabled, elapsed, eff);
            }
        },
        None => {},
    }
}

/// The countdowns agree with the timer: in a payload for an enabled mode the
/// one to switching off is a dash exactly if `Off` is due or ruled out, and the
/// one to dimming is a dash exactly if a phase other than `Awake` is due.
pub proof fn countdowns_agree_with_the_timer(
    payload: Json,
    phase: Phase,
    elapsed: u64,
    eff: EffSettings,
    due: Phase,
)
    requires
        payload_tells(payload, phase, true, elapsed, eff),
        is_due(due, eff, elapsed),
        eff.dim_at <= eff.off_at,
    ensures
        member(payload, "until_off"@) == Json::Text("–"@) <==> due is Off || eff.no_off,
        member(payload, "until_dim"@) == Json::Text("–"@) <==> !(due is Awake),
{
    reveal_strlit("–");
}

/// The status file says, each behind its label: whether the mode is on, that
/// it is night, the phase, and as durations the idle time and what is left
/// until dimming and until switching off.
pub open spec fn status_is(
    text: Seq<char>,
    seen: Observation,
    mode: Seq<char>,
    phase: Seq<char>,
    idle: Seq<char>,
    dim: Seq<char>,
    off: Seq<char>,
) -> bool {
    &&& seen.enabled && seen.eff.is_night ==> mode == "Sleep Mode: ON [Night]"@
    &&& seen.enabled && !seen.eff.is_night ==> mode == "Sleep Mode: ON"@
    &&& !seen.enabled && seen.eff.is_night ==> mode == "Sleep Mode: OFF [Night]"@
    &&& !seen.enabled && !seen.eff.is_night ==> mode == "Sleep Mode: OFF"@
    &&& seen.phase is Awake ==> phase == "Awake"@
    &&& seen.phase is Dim ==> phase == "Dimmed"@
    &&& seen.phase is Off ==> phase == "Off"@
    &&& is_duration(idle, seen.elapsed as int)
    &&& seen.elapsed < seen.eff.dim_at ==> is_duration(dim, seen.eff.dim_at - seen.elapsed)
    &&& seen.elapsed >= seen.eff.dim_at ==> is_duration(dim, 0)
    &&& seen.eff.no_off ==> off == "–"@
    &&& !seen.eff.no_off && seen.elapsed < seen.eff.off_at ==> is_duration(
        off,
        seen.eff.off_at - seen.elapsed,
    )
    &&& !seen.eff.no_off && seen.elapsed >= seen.eff.off_at ==> is_duration(off, 0)
    &&& text == mode + "  |  Phase: "@ + phase + "  |  Idle: "@ + idle + "\nDim in: "@ + dim
        + "  |  Off in: "@ + off + "  |  v1.4.0\n"@
}

/// The status file tells what the tick has seen.
pub proof fn status_file_tells_what_was_seen(seen: Observation, text: String)
    requires
        call_ensures(Observation::status_text, (&seen,), text),
    ensures
        exists|
            mode: Seq<char>,
            phase: Seq<char>,
            idle: Seq<char>,
            dim: Seq<char>,
            off: Seq<char>,
        | #[trigger] status_is(text@, seen, mode, phase, idle, dim, off),
{
    let mode = "Sleep Mode: "@ + (if seen.enabled {
        "ON"@
    } else {
        "OFF"@
    }) + (if seen.eff.is_night {
        " [Night]"@
    } else {
        ""@
    });
    reveal_strlit("Sleep Mode: ");
    reveal_strlit("ON");
    reveal_strlit("OFF");
    reveal_strlit(" [Night]");
    reveal_strlit("");
    reveal_strlit("Sleep Mode: ON [Night]");
    reveal_strlit("Sleep Mode: ON");
    reveal_strlit("Sleep Mode: OFF [Night]");
    reveal_strlit("Sleep Mode: OFF");
    reveal_strlit("  |  v");
    reveal_strlit("1.4.0");
    reveal_strlit("\n");
    reveal_strlit("  |  v1.4.0\n");
    assert(seen.enabled && seen.eff.is_night ==> mode =~= "Sleep Mode: ON [Night]"@);
    assert(seen.enabled && !seen.eff.is_night ==> mode =~= "Sleep Mode: ON"@);
    assert(!seen.enabled && seen.eff.is_night ==> mode =~= "Sleep Mode: OFF [Night]"@);
    assert(!seen.enabled && !seen.eff.is_night ==> mode =~= "Sleep Mode: OFF"@);
    assert("  |  v"@ + "1.4.0"@ + "\n"@ =~= "  |  v1.4.0\n"@);
    let phase = match seen.phase {
        Phase::Awake => "Awake"@,
        Phase::Dim => "Dimmed"@,
        Phase::Off => "Off"@,
    };
    let idle = mmss(seen.elapsed as nat);
    let dim = mmss(secs_left(seen.eff.dim_at, seen.elapsed));
    let off = if seen.eff.no_off {
        "–"@
    } else {
        mmss(secs_left(seen.eff.off_at, seen.elapsed))
    };
    mmss_is_duration(seen.elapsed as nat);
    mmss_is_duration(secs_left(seen.eff.dim_at, seen.elapsed));
    mmss_is_duration(secs_left(seen.eff.off_at, seen.elapsed));
    assert(text@ =~= mode + "  |  Phase: "@ + phase + "  |  Idle: "@ + idle + "\nDim in: "@ + dim
        + "  |  Off in: "@ + off + ("  |  v"@ + "1.4.0"@ + "\n"@));
    assert(status_is(text@, seen, mode, phase, idle, dim, off));
}

/// A brightness is set over the given port by two texts: that of a message
/// that registers the plugin, and that of a message with exactly this
/// brightness. Port zero sets none.
pub proof fn brightness_is_sent_over_the_port(
    port: u16,
    value: u8,
    request: Option<BrightnessRequest>,
)
    requires
        call_ensures(brightness_request, (port, value), request),
    ensures
        request is None <==> port == 0,
        request matches Some(r) ==> {
            &&& r.url@.len() > 15
            &&& r.url@.take(15) == "ws://127.0.0.1:"@
            &&& is_number(r.url@.skip(15), port as int)
            &&& exists|message: Json|
                {
                    &&& r.register@ == #[trigger] json_text(message)
                    &&& has_exactly(message, set!["event"@, "uuid"@])
                    &&& member(message, "event"@) == Json::Text("registerPlugin"@)
                    &&& member(message, "uuid"@) == Json::Text(
                        "opendeck_alternative_elgato_implementation"@,
                    )
                }
            &&& exists|message: Json|
                {
                    &&& r.command@ == #[trigger] json_text(message)
                    &&& has_exactly(message, set!["event"@, "action"@, "value"@])
                    &&& member(message, "event"@) == Json::Text("deviceBrightness"@)
                    &&& member(message, "action"@) == Json::Text("set"@)
                    &&& member(message, "value"@) == Json::Number(value as int)
                }
        },
{
    keys_differ();
    reveal_strlit("ws://127.0.0.1:");
    decimal_is_number(port as nat);
    match request {
        Some(r) => {
            assert(r.url@.take(15) =~= "ws://127.0.0.1:"@);
            assert(r.url@.skip(15) =~= decimal(port as nat));
            let register = register_json();
            let command = brightness_json(value);
            assert(register->Object_0.dom() =~= set!["event"@, "uuid"@]);
            assert(command->Object_0.dom() =~= set!["event"@, "action"@, "value"@]);
            assert(r.register@ == json_text(register));
            assert(r.command@ == json_text(command));
        },
        None => {},
    }
}

} // verus!
