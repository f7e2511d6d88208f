use workflow_automation::connector::base::{
    Connector, ConnectorReply, ConnectorRequest, HttpBody, HttpMethod, HttpReply,
};
use workflow_automation::connector::delay::{DelayConfig, DelayConnector, DelayOutput};
use workflow_automation::connector::factory::ConnectorFactory;
use workflow_automation::connector::webhook::{WebhookConfig, WebhookConnector, WebhookResponse};
use workflow_automation::json::{JsonNumber, JsonValue};
use workflow_automation::schemas::workflow::{ConnectorType, WorkflowStep, WorkflowStepResponse};
use workflow_automation::string_map::StringMap;

fn text(content: &str) -> JsonValue {
    JsonValue::String(content.to_string())
}

fn number(n: u64) -> JsonValue {
    JsonValue::Number(JsonNumber::PosInt(n))
}

fn context_with(entries: Vec<(&str, JsonValue)>) -> StringMap<JsonValue> {
    StringMap {
        entries: entries.into_iter().map(|(k, v)| (k.to_string(), v)).collect(),
    }
}

fn webhook_step(method: &str, body: JsonValue) -> WorkflowStep {
    WorkflowStep::Webhook {
        name: "notify".to_string(),
        config: WebhookConfig {
            url: "http://example.test/hook".to_string(),
            method: method.to_string(),
            headers: StringMap {
                entries: vec![("X-Token".to_string(), "abc".to_string())],
            },
            body,
        },
    }
}

fn delay_step(seconds: u64) -> WorkflowStep {
    WorkflowStep::Delay {
        name: "wait".to_string(),
        config: DelayConfig { duration: seconds },
    }
}

#[test]
fn delay_of_zero_seconds_reports_zero() {
    let output = DelayConnector::output(&DelayConfig { duration: 0 });
    assert_eq!(
        output,
        DelayOutput {
            duration: 0,
            message: "Delayed for 0 seconds".to_string()
        }
    );
}

#[test]
fn delay_message_renders_the_duration_in_decimal() {
    assert_eq!(
        DelayConnector::output(&DelayConfig { duration: 7 }).message,
        "Delayed for 7 seconds"
    );
    assert_eq!(
        DelayConnector::output(&DelayConfig { duration: 1205 }).message,
        "Delayed for 1205 seconds"
    );
    assert_eq!(
        DelayConnector::output(&DelayConfig { duration: u64::MAX }).message,
        "Delayed for 18446744073709551615 seconds"
    );
}

#[test]
fn delay_connector_asks_for_a_sleep_of_the_configured_length() {
    let request = DelayConnector::new().request(&delay_step(3), &StringMap::new());
    assert_eq!(request, Ok(ConnectorRequest::Sleep { seconds: 3 }));
}

#[test]
fn delay_connector_completes_after_the_sleep() {
    let outcome = DelayConnector::new().complete(&delay_step(0), ConnectorReply::Slept);
    assert_eq!(
        outcome,
        Ok(WorkflowStepResponse::Delay(DelayOutput {
            duration: 0,
            message: "Delayed for 0 seconds".to_string()
        }))
    );
}

#[test]
fn delay_connector_rejects_a_webhook_step() {
    let step = webhook_step("GET", JsonValue::Null);
    assert_eq!(
        DelayConnector::new().request(&step, &StringMap::new()),
        Err("DelayConnector received non-delay step".to_string())
    );
    assert_eq!(
        DelayConnector::new().complete(&step, ConnectorReply::Slept),
        Err("DelayConnector received non-delay step".to_string())
    );
}

#[test]
fn delay_connector_rejects_a_reply_it_did_not_ask_for() {
    let reply = ConnectorReply::Http(HttpReply {
        status_code: 200,
        body: HttpBody::Text(String::new()),
    });
    assert_eq!(
        DelayConnector::new().complete(&delay_step(1), reply),
        Err("DelayConnector received an unexpected reply".to_string())
    );
}

#[test]
fn placeholders_are_replaced_by_context_values() {
    let context = context_with(vec![("a", number(5))]);
    let body = JsonValue::Object(vec![
        ("x".to_string(), text("${a}")),
        ("y".to_string(), text("${missing}")),
        ("z".to_string(), text("literal")),
    ]);
    let expected = JsonValue::Object(vec![
        ("x".to_string(), number(5)),
        ("y".to_string(), text("${missing}")),
        ("z".to_string(), text("literal")),
    ]);
    assert_eq!(WebhookConnector::replace_placeholders(&body, &context), expected);
}

#[test]
fn placeholders_are_replaced_inside_arrays_and_nested_objects() {
    let context = context_with(vec![
        ("payload", JsonValue::Object(vec![("k".to_string(), JsonValue::Bool(true))])),
        ("n", number(2)),
    ]);
    let body = JsonValue::Array(vec![
        text("${n}"),
        JsonValue::Object(vec![(
            "inner".to_string(),
            JsonValue::Array(vec![text("${payload}"), JsonValue::Null]),
        )]),
        number(9),
    ]);
    let expected = JsonValue::Array(vec![
        number(2),
        JsonValue::Object(vec![(
            "inner".to_string(),
            JsonValue::Array(vec![
                JsonValue::Object(vec![("k".to_string(), JsonValue::Bool(true))]),
                JsonValue::Null,
            ]),
        )]),
        number(9),
    ]);
    assert_eq!(WebhookConnector::replace_placeholders(&body, &context), expected);
}

#[test]
fn a_top_level_placeholder_is_replaced() {
    let context = context_with(vec![("a", number(5))]);
    assert_eq!(
        WebhookConnector::replace_placeholders(&text("${a}"), &context),
        number(5)
    );
}

#[test]
fn a_placeholder_inside_a_longer_string_is_left_alone() {
    let context = context_with(vec![("a", number(5)), ("", number(1))]);
    for literal in ["x${a}", "${a}x", "${a", "$a}", "{a}", "${", "$}", ""] {
        assert_eq!(
            WebhookConnector::replace_placeholders(&text(literal), &context),
            text(literal)
        );
    }
}

#[test]
fn the_empty_placeholder_names_the_empty_key() {
    let context = context_with(vec![("", number(1))]);
    assert_eq!(
        WebhookConnector::replace_placeholders(&text("${}"), &context),
        number(1)
    );
}

#[test]
fn object_keys_are_never_replaced() {
    let context = context_with(vec![("a", text("v"))]);
    let body = JsonValue::Object(vec![("${a}".to_string(), text("${a}"))]);
    let expected = JsonValue::Object(vec![("${a}".to_string(), text("v"))]);
    assert_eq!(WebhookConnector::replace_placeholders(&body, &context), expected);
}

#[test]
fn webhook_method_is_upper_cased() {
    let step = webhook_step("post", text("${a}"));
    let context = context_with(vec![("a", number(5))]);
    let request = WebhookConnector::new().request(&step, &context);
    match request {
        Ok(ConnectorRequest::Http(http)) => {
            assert_eq!(http.method, HttpMethod::Post);
            assert_eq!(http.method.as_str(), "POST");
            assert_eq!(http.url, "http://example.test/hook");
            assert_eq!(
                http.headers.entries,
                vec![("X-Token".to_string(), "abc".to_string())]
            );
            assert_eq!(http.body, Some(number(5)));
        }
        other => panic!("unexpected request: {:?}", other),
    }
}

#[test]
fn webhook_get_and_delete_send_no_body() {
    for (method, expected) in [("GET", HttpMethod::Get), ("delete", HttpMethod::Delete)] {
        let step = webhook_step(method, text("body"));
        match WebhookConnector::new().request(&step, &StringMap::new()) {
            Ok(ConnectorRequest::Http(http)) => {
                assert_eq!(http.method, expected);
                assert_eq!(http.body, None);
            }
            other => panic!("unexpected request: {:?}", other),
        }
    }
}

#[test]
fn webhook_put_sends_the_substituted_body() {
    let step = webhook_step("Put", JsonValue::Array(vec![text("${a}")]));
    let context = context_with(vec![("a", text("v"))]);
    match WebhookConnector::new().request(&step, &context) {
        Ok(ConnectorRequest::Http(http)) => {
            assert_eq!(http.method, HttpMethod::Put);
            assert_eq!(http.body, Some(JsonValue::Array(vec![text("v")])));
        }
        other => panic!("unexpected request: {:?}", other),
    }
}

#[test]
fn webhook_rejects_an_unsupported_method() {
    let step = webhook_step("patch", JsonValue::Null);
    assert_eq!(
        WebhookConnector::new().request(&step, &StringMap::new()),
        Err("Unsupported HTTP method: PATCH".to_string())
    );
}

#[test]
fn build_request_takes_the_method_as_given() {
    let config = WebhookConfig {
        url: "u".to_string(),
        method: "ignored".to_string(),
        headers: StringMap::new(),
        body: JsonValue::Null,
    };
    let lower = WebhookConnector::build_request("get", &config, &StringMap::new());
    assert_eq!(lower, Err("Unsupported HTTP method: get".to_string()));
    let upper = WebhookConnector::build_request("GET", &config, &StringMap::new());
    assert_eq!(upper.map(|r| r.method), Ok(HttpMethod::Get));
}

#[test]
fn webhook_rejects_a_delay_step() {
    assert_eq!(
        WebhookConnector::new().request(&delay_step(1), &StringMap::new()),
        Err("WebhookConnector received non-webhook step".to_string())
    );
}

#[test]
fn webhook_reports_a_non_2xx_status_as_output() {
    let step = webhook_step("get", JsonValue::Null);
    let reply = ConnectorReply::Http(HttpReply {
        status_code: 503,
        body: HttpBody::Text("busy".to_string()),
    });
    assert_eq!(
        WebhookConnector::new().complete(&step, reply),
        Ok(WorkflowStepResponse::Webhook(WebhookResponse {
            status_code: 503,
            response_data: text("busy"),
            url: "http://example.test/hook".to_string(),
            method: "GET".to_string(),
        }))
    );
}

#[test]
fn webhook_keeps_a_json_response_structured() {
    let step = webhook_step("POST", JsonValue::Null);
    let data = JsonValue::Object(vec![("ok".to_string(), JsonValue::Bool(true))]);
    let reply = ConnectorReply::Http(HttpReply {
        status_code: 201,
        body: HttpBody::Json(data.clone()),
    });
    match WebhookConnector::new().complete(&step, reply) {
        Ok(WorkflowStepResponse::Webhook(response)) => {
            assert_eq!(response.status_code, 201);
            assert_eq!(response.response_data, data);
            assert_eq!(response.method, "POST");
        }
        other => panic!("unexpected outcome: {:?}", other),
    }
}

#[test]
fn webhook_fails_on_a_transport_error() {
    let step = webhook_step("GET", JsonValue::Null);
    assert_eq!(
        WebhookConnector::new().complete(&step, ConnectorReply::Failed("dns error".to_string())),
        Err("dns error".to_string())
    );
}

#[test]
fn webhook_rejects_a_reply_it_did_not_ask_for() {
    let step = webhook_step("GET", JsonValue::Null);
    assert_eq!(
        WebhookConnector::new().complete(&step, ConnectorReply::Slept),
        Err("WebhookConnector received an unexpected reply".to_string())
    );
}

#[test]
fn json_content_types_are_recognised_by_prefix() {
    assert!(WebhookConnector::expects_json("application/json"));
    assert!(WebhookConnector::expects_json("application/json; charset=utf-8"));
    assert!(!WebhookConnector::expects_json("text/plain"));
    assert!(!WebhookConnector::expects_json("Application/JSON"));
    assert!(!WebhookConnector::expects_json("application/jso"));
    assert!(!WebhookConnector::expects_json(""));
}

#[test]
fn factory_resolves_each_kind() {
    let delay = ConnectorFactory::get_instance(&ConnectorType::Delay)
        .ok()
        .expect("every kind has a connector");
    assert_eq!(
        delay.request(&delay_step(3), &StringMap::new()),
        Ok(ConnectorRequest::Sleep { seconds: 3 })
    );
    assert_eq!(
        delay.request(&webhook_step("GET", JsonValue::Null), &StringMap::new()),
        Err("DelayConnector received non-delay step".to_string())
    );
    let webhook = ConnectorFactory::get_instance(&ConnectorType::Webhook)
        .ok()
        .expect("every kind has a connector");
    assert_eq!(
        webhook.request(&delay_step(3), &StringMap::new()),
        Err("WebhookConnector received non-webhook step".to_string())
    );
    assert_eq!(
        webhook.complete(
            &webhook_step("GET", JsonValue::Null),
            ConnectorReply::Failed("timeout".to_string())
        ),
        Err("timeout".to_string())
    );
}

#[test]
fn default_connectors_are_the_new_ones() {
    assert_eq!(DelayConnector::default(), DelayConnector::new());
    assert_eq!(WebhookConnector::default(), WebhookConnector::new());
}

#[test]
fn step_outputs_become_tagged_objects() {
    let delay = WorkflowStepResponse::Delay(DelayOutput {
        duration: 2,
        message: "Delayed for 2 seconds".to_string(),
    });
    assert_eq!(
        delay.to_json(),
        JsonValue::Object(vec![
            ("type".to_string(), text("delay")),
            ("duration".to_string(), number(2)),
            ("message".to_string(), text("Delayed for 2 seconds")),
        ])
    );
    let webhook = WorkflowStepResponse::Webhook(WebhookResponse {
        status_code: 404,
        response_data: JsonValue::Null,
        url: "u".to_string(),
        method: "GET".to_string(),
    });
    assert_eq!(
        webhook.to_json(),
        JsonValue::Object(vec![
            ("type".to_string(), text("webhook")),
            ("status_code".to_string(), number(404)),
            ("response_data".to_string(), JsonValue::Null),
            ("url".to_string(), text("u")),
            ("method".to_string(), text("GET")),
        ])
    );
}

#[test]
fn steps_know_their_name_and_kind() {
    assert_eq!(delay_step(1).name(), "wait");
    assert_eq!(delay_step(1).connector_type(), ConnectorType::Delay);
    let hook = webhook_step("GET", JsonValue::Null);
    assert_eq!(hook.name(), "notify");
    assert_eq!(hook.connector_type(), ConnectorType::Webhook);
    assert_eq!(ConnectorType::Delay.to_string(), "delay");
    assert_eq!(ConnectorType::Webhook.as_str(), "webhook");
}
