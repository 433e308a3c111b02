use booster_sdk::options::RpcClientOptions;
use booster_sdk::text::trim;
use booster_sdk::topic::{
    device_gateway_topic, normalize_service_topic, rpc_request_topic, rpc_response_topic,
    QosProfile, LIGHT_CONTROL_API_TOPIC, LOCO_API_TOPIC,
};

#[test]
fn normalization_folds_suffixes() {
    for x in ["X", "rt/LocoApiTopic", "svc"] {
        let req = format!("{x}Req");
        let resp = format!("{x}Resp");
        assert_eq!(normalize_service_topic(&req), x);
        assert_eq!(normalize_service_topic(x), x);
        assert_eq!(normalize_service_topic(&resp), x);
    }
    assert_eq!(normalize_service_topic("  rt/FooReq \t"), "rt/Foo");
}

#[test]
fn blank_topic_normalizes_to_default() {
    assert_eq!(normalize_service_topic(""), LOCO_API_TOPIC);
    assert_eq!(normalize_service_topic("   \n\t"), "rt/LocoApiTopic");
}

#[test]
fn trim_strips_unicode_space() {
    assert_eq!(trim("\u{3000} ab c\u{2028}\n"), "ab c");
    assert_eq!(trim("   "), "");
    assert_eq!(trim("x"), "x");
}

#[test]
fn request_and_response_topics() {
    let req = rpc_request_topic("rt/LocoApiTopic");
    let resp = rpc_response_topic("rt/LocoApiTopic");
    assert_eq!(req.name, "rt/LocoApiTopicReq");
    assert_eq!(resp.name, "rt/LocoApiTopicResp");
    assert_eq!(req.message_type, "booster_msgs::msg::dds_::RpcReqMsg_");
    assert_eq!(req.qos, QosProfile::ReliableKeepLast(10));
    assert!(!resp.keyed);
    let g = device_gateway_topic();
    assert_eq!(g.name, "rt/device_gateway");
    assert_eq!(g.qos, QosProfile::BestEffortKeepLast(1));
}

#[test]
fn options_pick_service_topics() {
    let o = RpcClientOptions::default();
    assert_eq!(o.default_timeout_ms, 5_000);
    let (req, resp) = o.service_topics();
    assert_eq!(req.name, "rt/LocoApiTopicReq");
    assert_eq!(resp.name, "rt/LocoApiTopicResp");
    let o = RpcClientOptions::for_service("rt/VisionApiTopicResp".to_string());
    assert_eq!(o.service_topics().0.name, "rt/VisionApiTopicReq");
    let o = o.with_service_topic(LIGHT_CONTROL_API_TOPIC.to_string());
    assert_eq!(o.service_topics().1.name, "rt/LightControlApiTopicResp");
}
