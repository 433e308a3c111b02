//! Topic names and topic specifications.
//!
//! A logical service has one request topic and one response topic, named by
//! appending `Req` and `Resp` to the service's base name.

use vstd::prelude::*;
use vstd::string::*;
use crate::text::{trim, trimmed, trim_start, trim_end, is_white_space};

verus! {

pub const TYPE_RPC_REQ: &'static str = "booster_msgs::msg::dds_::RpcReqMsg_";
pub const TYPE_RPC_RESP: &'static str = "booster_msgs::msg::dds_::RpcRespMsg_";
pub const TYPE_ROBOT_STATUS: &'static str = "booster_interface::msg::dds_::RobotStatusDdsMsg_";
pub const TYPE_MOTION_STATE: &'static str = "booster::msg::MotionState";
pub const TYPE_BATTERY_STATE: &'static str = "booster_interface::msg::dds_::BatteryState_";
pub const TYPE_BUTTON_EVENT: &'static str = "booster_interface::msg::dds_::ButtonEventMsg_";
pub const TYPE_REMOTE_CONTROLLER: &'static str = "booster_interface::msg::dds_::RemoteControllerState_";
pub const TYPE_PROCESS_STATE: &'static str = "booster_interface::msg::dds_::RobotProcessStateMsg_";
pub const TYPE_BINARY_DATA: &'static str = "booster_msgs::msg::dds_::BinaryData_";
pub const TYPE_GRIPPER_CONTROL: &'static str = "booster_interface::msg::dds_::GripperControl_";
pub const TYPE_LIGHT_CONTROL: &'static str = "booster_interface::msg::dds_::LightControlMsg_";
pub const TYPE_SAFE_MODE: &'static str = "booster_msgs::msg::dds_::BinaryData_";
pub const TYPE_SUBTITLE: &'static str = "booster_interface::msg::dds_::Subtitle_";
pub const TYPE_ASR_CHUNK: &'static str = "booster_interface::msg::dds_::AsrChunk_";

/// The locomotion service; also the service that a blank name stands for.
pub const LOCO_API_TOPIC: &'static str = "rt/LocoApiTopic";
pub const AI_API_TOPIC: &'static str = "rt/AiApiTopic";
pub const LUI_API_TOPIC: &'static str = "rt/LuiApiTopic";
pub const LIGHT_CONTROL_API_TOPIC: &'static str = "rt/LightControlApiTopic";
pub const VISION_API_TOPIC: &'static str = "rt/VisionApiTopic";
pub const X5_CAMERA_CONTROL_API_TOPIC: &'static str = "rt/X5CameraControl";

/// Delivery guarantees asked of a topic.
#[derive(Debug, Clone, Copy, PartialEq, Eq)]
pub enum QosProfile {
    /// Reliable delivery, keeping the last `depth` samples.
    ReliableKeepLast(i32),
    /// Reliable delivery, keeping every sample.
    ReliableKeepAll,
    /// Best-effort delivery, keeping the last `depth` samples.
    BestEffortKeepLast(i32),
}

/// What the transport needs to create a topic.
#[derive(Debug)]
pub struct TopicSpec {
    pub name: String,
    pub message_type: String,
    pub qos: QosProfile,
    /// Whether samples are keyed; all topics here are not.
    pub keyed: bool,
}

/// `s` ends with `suffix`.
pub open spec fn ends_with(s: Seq<char>, suffix: Seq<char>) -> bool {
    s.len() >= suffix.len() && s.subrange(s.len() - suffix.len(), s.len() as int) == suffix
}

/// The base service name that a service topic stands for: trimmed, blank
/// replaced by the locomotion service, and a trailing `Req` or `Resp` taken off.
pub open spec fn normalize_spec(s: Seq<char>) -> Seq<char> {
    let t = trimmed(s);
    if t.len() == 0 {
        LOCO_API_TOPIC@
    } else if ends_with(t, "Req"@) {
        t.subrange(0, t.len() - 3)
    } else if ends_with(t, "Resp"@) {
        t.subrange(0, t.len() - 4)
    } else {
        t
    }
}

/// Whether `s` ends with `suffix`.
pub fn has_suffix(s: &str, suffix: &str) -> (r: bool)
    ensures
        r == ends_with(s@, suffix@),
{
    let n = s.unicode_len();
    let m = suffix.unicode_len();
    if n < m {
        return false;
    }
    let start = n - m;
    let mut k: usize = 0;
    while k < m
        invariant
            n == s@.len(),
            m == suffix@.len(),
            start == n - m,
            k <= m,
            forall|j: int| 0 <= j < k ==> s@[start + j] == suffix@[j],
        decreases m - k,
    {
        if s.get_char(start + k) != suffix.get_char(k) {
            proof {
                assert(s@.subrange(start as int, n as int)[k as int] != suffix@[k as int]);
            }
            return false;
        }
        k = k + 1;
    }
    proof {
        assert(s@.subrange(start as int, n as int) =~= suffix@);
    }
    true
}

/// Derives the base service name from a service topic: trims it, takes a blank
/// one for the locomotion service, and takes off a trailing `Req` or `Resp`.
pub fn normalize_service_topic(service_topic: &str) -> (r: String)
    ensures
        r@ == normalize_spec(service_topic@),
{
    proof {
        reveal_strlit("Req");
        reveal_strlit("Resp");
    }
    let t = trim(service_topic);
    let n = t.unicode_len();
    if n == 0 {
        return LOCO_API_TOPIC.to_owned();
    }
    if has_suffix(t, "Req") {
        return t.substring_char(0, n - 3).to_owned();
    }
    if has_suffix(t, "Resp") {
        return t.substring_char(0, n - 4).to_owned();
    }
    t.to_owned()
}

/// The name of the request topic of a service.
pub open spec fn request_topic_name(service: Seq<char>) -> Seq<char> {
    service + "Req"@
}

/// The name of the response topic of a service.
pub open spec fn response_topic_name(service: Seq<char>) -> Seq<char> {
    service + "Resp"@
}

/// The topic on which requests to `service_topic` are published.
pub fn rpc_request_topic(service_topic: &str) -> (r: TopicSpec)
    ensures
        r.name@ == request_topic_name(service_topic@),
        r.message_type@ == TYPE_RPC_REQ@,
        r.qos == QosProfile::ReliableKeepLast(10),
        !r.keyed,
{
    TopicSpec {
        name: service_topic.to_owned().concat("Req"),
        message_type: TYPE_RPC_REQ.to_owned(),
        qos: QosProfile::ReliableKeepLast(10),
        keyed: false,
    }
}

/// The topic on which replies from `service_topic` arrive.
pub fn rpc_response_topic(service_topic: &str) -> (r: TopicSpec)
    ensures
        r.name@ == response_topic_name(service_topic@),
        r.message_type@ == TYPE_RPC_RESP@,
        r.qos == QosProfile::ReliableKeepLast(10),
        !r.keyed,
{
    TopicSpec {
        name: service_topic.to_owned().concat("Resp"),
        message_type: TYPE_RPC_RESP.to_owned(),
        qos: QosProfile::ReliableKeepLast(10),
        keyed: false,
    }
}

/// The request topic of the locomotion service.
pub fn loco_request_topic() -> (r: TopicSpec)
    ensures
        r.name@ == request_topic_name(LOCO_API_TOPIC@),
        r.message_type@ == TYPE_RPC_REQ@,
        r.qos == QosProfile::ReliableKeepLast(10),
        !r.keyed,
{
    rpc_request_topic(LOCO_API_TOPIC)
}

/// The response topic of the locomotion service.
pub fn loco_response_topic() -> (r: TopicSpec)
    ensures
        r.name@ == response_topic_name(LOCO_API_TOPIC@),
        r.message_type@ == TYPE_RPC_RESP@,
        r.qos == QosProfile::ReliableKeepLast(10),
        !r.keyed,
{
    rpc_response_topic(LOCO_API_TOPIC)
}

/// The topic of robot status reports from the device gateway.
pub fn device_gateway_topic() -> (r: TopicSpec)
    ensures
        r.name@ == "rt/device_gateway"@,
        r.message_type@ == TYPE_ROBOT_STATUS@,
        r.qos == QosProfile::BestEffortKeepLast(1),
        !r.keyed,
{
    TopicSpec {
        name: "rt/device_gateway".to_owned(),
        message_type: TYPE_ROBOT_STATUS.to_owned(),
        qos: QosProfile::BestEffortKeepLast(1),
        keyed: false,
    }
}

/// The topic of motion state reports.
pub fn motion_state_topic() -> (r: TopicSpec)
    ensures
        r.name@ == "rt/motion_state"@,
        r.message_type@ == TYPE_MOTION_STATE@,
        r.qos == QosProfile::BestEffortKeepLast(1),
        !r.keyed,
{
    TopicSpec {
        name: "rt/motion_state".to_owned(),
        message_type: TYPE_MOTION_STATE.to_owned(),
        qos: QosProfile::BestEffortKeepLast(1),
        keyed: false,
    }
}

/// The topic of battery state reports.
pub fn battery_state_topic() -> (r: TopicSpec)
    ensures
        r.name@ == "rt/battery_state"@,
        r.message_type@ == TYPE_BATTERY_STATE@,
        r.qos == QosProfile::ReliableKeepLast(1),
        !r.keyed,
{
    TopicSpec {
        name: "rt/battery_state".to_owned(),
        message_type: TYPE_BATTERY_STATE.to_owned(),
        qos: QosProfile::ReliableKeepLast(1),
        keyed: false,
    }
}

/// The topic of button events.
pub fn button_event_topic() -> (r: TopicSpec)
    ensures
        r.name@ == "rt/button_event"@,
        r.message_type@ == TYPE_BUTTON_EVENT@,
        r.qos == QosProfile::ReliableKeepAll,
        !r.keyed,
{
    TopicSpec {
        name: "rt/button_event".to_owned(),
        message_type: TYPE_BUTTON_EVENT.to_owned(),
        qos: QosProfile::ReliableKeepAll,
        keyed: false,
    }
}

/// The topic of remote controller state.
pub fn remote_controller_topic() -> (r: TopicSpec)
    ensures
        r.name@ == "rt/remote_controller_state"@,
        r.message_type@ == TYPE_REMOTE_CONTROLLER@,
        r.qos == QosProfile::BestEffortKeepLast(1),
        !r.keyed,
{
    TopicSpec {
        name: "rt/remote_controller_state".to_owned(),
        message_type: TYPE_REMOTE_CONTROLLER.to_owned(),
        qos: QosProfile::BestEffortKeepLast(1),
        keyed: false,
    }
}

/// The topic of robot process state.
pub fn process_state_topic() -> (r: TopicSpec)
    ensures
        r.name@ == "rt/booster_process_state"@,
        r.message_type@ == TYPE_PROCESS_STATE@,
        r.qos == QosProfile::ReliableKeepLast(1),
        !r.keyed,
{
    TopicSpec {
        name: "rt/booster_process_state".to_owned(),
        message_type: TYPE_PROCESS_STATE.to_owned(),
        qos: QosProfile::ReliableKeepLast(1),
        keyed: false,
    }
}

/// The topic of the video stream.
pub fn video_stream_topic() -> (r: TopicSpec)
    ensures
        r.name@ == "rt/booster/video_stream"@,
        r.message_type@ == TYPE_BINARY_DATA@,
        r.qos == QosProfile::BestEffortKeepLast(1),
        !r.keyed,
{
    TopicSpec {
        name: "rt/booster/video_stream".to_owned(),
        message_type: TYPE_BINARY_DATA.to_owned(),
        qos: QosProfile::BestEffortKeepLast(1),
        keyed: false,
    }
}

/// The topic of gripper control messages.
pub fn gripper_control_topic() -> (r: TopicSpec)
    ensures
        r.name@ == "rt/gripper_control"@,
        r.message_type@ == TYPE_GRIPPER_CONTROL@,
        r.qos == QosProfile::ReliableKeepLast(10),
        !r.keyed,
{
    TopicSpec {
        name: "rt/gripper_control".to_owned(),
        message_type: TYPE_GRIPPER_CONTROL.to_owned(),
        qos: QosProfile::ReliableKeepLast(10),
        keyed: false,
    }
}

/// The topic of light control messages.
pub fn light_control_topic() -> (r: TopicSpec)
    ensures
        r.name@ == "rt/light_control"@,
        r.message_type@ == TYPE_LIGHT_CONTROL@,
        r.qos == QosProfile::ReliableKeepLast(10),
        !r.keyed,
{
    TopicSpec {
        name: "rt/light_control".to_owned(),
        message_type: TYPE_LIGHT_CONTROL.to_owned(),
        qos: QosProfile::ReliableKeepLast(10),
        keyed: false,
    }
}

/// The topic of safe mode requests.
pub fn safe_mode_topic() -> (r: TopicSpec)
    ensures
        r.name@ == "rt/enter_safe_mode"@,
        r.message_type@ == TYPE_SAFE_MODE@,
        r.qos == QosProfile::ReliableKeepAll,
        !r.keyed,
{
    TopicSpec {
        name: "rt/enter_safe_mode".to_owned(),
        message_type: TYPE_SAFE_MODE.to_owned(),
        qos: QosProfile::ReliableKeepAll,
        keyed: false,
    }
}

/// The topic of AI chat subtitles.
pub fn ai_subtitle_topic() -> (r: TopicSpec)
    ensures
        r.name@ == "rt/ai_subtitle"@,
        r.message_type@ == TYPE_SUBTITLE@,
        r.qos == QosProfile::ReliableKeepLast(16),
        !r.keyed,
{
    TopicSpec {
        name: "rt/ai_subtitle".to_owned(),
        message_type: TYPE_SUBTITLE.to_owned(),
        qos: QosProfile::ReliableKeepLast(16),
        keyed: false,
    }
}

/// The topic of speech recognition chunks.
pub fn lui_asr_chunk_topic() -> (r: TopicSpec)
    ensures
        r.name@ == "rt/lui_asr_chunk"@,
        r.message_type@ == TYPE_ASR_CHUNK@,
        r.qos == QosProfile::ReliableKeepLast(16),
        !r.keyed,
{
    TopicSpec {
        name: "rt/lui_asr_chunk".to_owned(),
        message_type: TYPE_ASR_CHUNK.to_owned(),
        qos: QosProfile::ReliableKeepLast(16),
        keyed: false,
    }
}

proof fn lemma_trim_start_shortens(s: Seq<char>)
    ensures
        trim_start(s).len() <= s.len(),
        s.len() > 0 && is_white_space(s[0]) ==> trim_start(s).len() < s.len(),
    decreases s.len(),
{
    if s.len() > 0 && is_white_space(s[0]) {
        lemma_trim_start_shortens(s.drop_first());
    }
}

proof fn lemma_trim_end_shortens(s: Seq<char>)
    ensures
        trim_end(s).len() <= s.len(),
        s.len() > 0 && is_white_space(s.last()) ==> trim_end(s).len() < s.len(),
    decreases s.len(),
{
    if s.len() > 0 && is_white_space(s.last()) {
        lemma_trim_end_shortens(s.drop_last());
    }
}

/// A text that trimming leaves as it is has no white space at either end.
proof fn lemma_trimmed_ends(x: Seq<char>)
    requires
        trimmed(x) == x,
        x.len() > 0,
    ensures
        !is_white_space(x[0]),
        !is_white_space(x.last()),
{
    lemma_trim_start_shortens(x);
    lemma_trim_end_shortens(trim_start(x));
    if is_white_space(x.last()) {
        if trim_start(x) == x {
            assert(trim_end(x).len() < x.len());
        } else {
            assert(trim_start(x).len() < x.len());
        }
    }
}

/// Appending a suffix that ends in a character other than white space keeps a
/// trimmed text trimmed.
proof fn lemma_trimmed_append(x: Seq<char>, suffix: Seq<char>)
    requires
        trimmed(x) == x,
        x.len() > 0,
        suffix.len() > 0,
        !is_white_space(suffix.last()),
    ensures
        trimmed(x + suffix) == x + suffix,
{
    lemma_trimmed_ends(x);
    let y = x + suffix;
    assert(y[0] == x[0]);
    assert(y.last() == suffix.last());
}

/// Normalization folds the request and response names of a service onto the
/// service itself: for a base name that is trimmed, not blank, and not itself
/// ending in `Req` or `Resp`, the name, the name with `Req` and the name with
/// `Resp` all normalize to the name. Blank input normalizes to the locomotion
/// service.
pub proof fn lemma_normalize_folds_suffixes(x: Seq<char>, blank: Seq<char>)
    requires
        trimmed(x) == x,
        x.len() > 0,
        !ends_with(x, "Req"@),
        !ends_with(x, "Resp"@),
        trimmed(blank).len() == 0,
    ensures
        normalize_spec(x) == x,
        normalize_spec(request_topic_name(x)) == x,
        normalize_spec(response_topic_name(x)) == x,
        normalize_spec(blank) == LOCO_API_TOPIC@,
{
    reveal_strlit("Req");
    reveal_strlit("Resp");
    let n = x.len();
    let rq = x + "Req"@;
    let rs = x + "Resp"@;
    assert(!is_white_space('q'));
    assert(!is_white_space('p'));
    lemma_trimmed_append(x, "Req"@);
    lemma_trimmed_append(x, "Resp"@);
    assert(rq.subrange(rq.len() - 3, rq.len() as int) =~= "Req"@);
    assert(rq.subrange(0, rq.len() - 3) =~= x);
    assert(rs.subrange(rs.len() - 3, rs.len() as int)[0] == 'e');
    assert(rs.subrange(rs.len() - 4, rs.len() as int) =~= "Resp"@);
    assert(rs.subrange(0, rs.len() - 4) =~= x);
}

} // verus!
