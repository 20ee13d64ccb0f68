use solaredge2mqtt::homeassistant::config_to_json;
use solaredge2mqtt::homeassistant::generate_homeasitant_sensors;
use solaredge2mqtt::homeassistant::generate_homeassistant_config;
use solaredge2mqtt::homeassistant::Sensor;
use solaredge2mqtt::json::json_quote;
use solaredge2mqtt::solaredge::interpret_fetch_response;
use solaredge2mqtt::solaredge::FetchError;
use solaredge2mqtt::solaredge::Item;
use solaredge2mqtt::solaredge::Root;
use solaredge2mqtt::solaredge::SiteCurrentPowerFlow;
use solaredge2mqtt::state::generate_state_payload;
use solaredge2mqtt::state::State;

fn root(pv: i64, load: i64, grid: i64) -> Root {
    Root {
        site_current_power_flow: SiteCurrentPowerFlow {
            update_refresh_rate: 3,
            unit: "kW".to_string(),
            connections: vec![],
            grid: Item {
                status: "Active".to_string(),
                current_power: grid,
            },
            load: Item {
                status: "Active".to_string(),
                current_power: load,
            },
            pv: Item {
                status: "Active".to_string(),
                current_power: pv,
            },
        },
    }
}

#[test]
fn state_payload_exact_text() {
    let state = State {
        pv_to_load: 3170,
        load_to_grid: 0,
        grid_to_load: -2000,
        pv: 3170,
        load: 1170,
        grid: -2000,
    };
    let payload = generate_state_payload(&state);
    assert_eq!(
        payload.as_str(),
        "{\"pv_to_load\":3.170,\"load_to_grid\":0.000,\"grid_to_load\":-2.000,\
         \"pv\":3.170,\"load\":1.170,\"grid\":-2.000}"
    );
}

#[test]
fn state_payload_always_has_all_six_keys() {
    let state = State {
        pv_to_load: 0,
        load_to_grid: 0,
        grid_to_load: 0,
        pv: 0,
        load: 0,
        grid: 0,
    };
    let payload = generate_state_payload(&state);
    let value: serde_json::Value = serde_json::from_str(payload.as_str()).unwrap();
    for key in [
        "pv_to_load",
        "load_to_grid",
        "grid_to_load",
        "pv",
        "load",
        "grid",
    ] {
        assert!(value.get(key).is_some(), "missing key {}", key);
        assert_eq!(value[key].as_f64().unwrap(), 0.0);
    }
}

#[test]
fn state_payload_values_parse_back() {
    let state = State {
        pv_to_load: 5250,
        load_to_grid: -125,
        grid_to_load: 0,
        pv: 5250,
        load: 5375,
        grid: 125,
    };
    let payload = generate_state_payload(&state);
    let value: serde_json::Value = serde_json::from_str(payload.as_str()).unwrap();
    assert_eq!(value["pv_to_load"].as_f64().unwrap(), 5.25);
    assert_eq!(value["load_to_grid"].as_f64().unwrap(), -0.125);
    assert_eq!(value["load"].as_f64().unwrap(), 5.375);
}

#[test]
fn discovery_messages_cover_five_sensors() {
    let messages = generate_homeasitant_sensors(
        "42",
        "homeassistant/sensor/{}/config",
        "homeassistant/sensor/{}/state",
    );
    assert_eq!(messages.len(), 5);
    let topics: Vec<&str> = messages.iter().map(|m| m.0.as_str()).collect();
    assert_eq!(
        topics,
        vec![
            "homeassistant/sensor/pv_to_load/config",
            "homeassistant/sensor/load_to_grid/config",
            "homeassistant/sensor/grid_to_load/config",
            "homeassistant/sensor/pv/config",
            "homeassistant/sensor/grid/config",
        ]
    );
    // The load reading is published in the state payload but deliberately
    // gets no discovery entry.
    assert!(!topics.contains(&"homeassistant/sensor/load/config"));
}

#[test]
fn discovery_payload_fields() {
    let messages = generate_homeasitant_sensors(
        "42",
        "homeassistant/sensor/{}/config",
        "homeassistant/sensor/{}/state",
    );
    let value: serde_json::Value = serde_json::from_str(messages[0].1.as_str()).unwrap();
    assert_eq!(value["device_class"].as_str().unwrap(), "power");
    assert_eq!(
        value["state_topic"].as_str().unwrap(),
        "homeassistant/sensor/solaredge2mqtt42/state"
    );
    assert_eq!(value["unit_of_measurement"].as_str().unwrap(), "kW");
    assert_eq!(
        value["value_template"].as_str().unwrap(),
        "{{ value_json.pv_to_load}}"
    );
    assert_eq!(value["unique_id"].as_str().unwrap(), "solaredge2mqtt42pvtoload");
    let identifiers = value["device"]["identifiers"].as_array().unwrap();
    assert_eq!(identifiers.len(), 1);
    assert_eq!(identifiers[0].as_str().unwrap(), "solaredge2mqtt42pvtoload");
    assert_eq!(value["device"]["name"].as_str().unwrap(), "solaredge2mqtt PV to LOAD");
    assert_eq!(value["device"]["manufacturer"].as_str().unwrap(), "solaredge2mqtt");
}

#[test]
fn discovery_build_is_stable() {
    let first = generate_homeassistant_config(
        "42",
        &Sensor {
            technical_name: "pv_to_load".to_string(),
            name: "PV to LOAD".to_string(),
        },
        "homeassistant/sensor/{}/config",
        "homeassistant/sensor/{}/state",
    );
    let second = generate_homeassistant_config(
        "42",
        &Sensor {
            technical_name: "pv_to_load".to_string(),
            name: "PV to LOAD".to_string(),
        },
        "homeassistant/sensor/{}/config",
        "homeassistant/sensor/{}/state",
    );
    assert_eq!(first.0, second.0);
    assert_eq!(first.1.unique_id, second.1.unique_id);
    assert_eq!(config_to_json(&first.1), config_to_json(&second.1));
}

#[test]
fn config_json_escapes_embedded_text() {
    let (_, config) = generate_homeassistant_config(
        "a\"b\\c",
        &Sensor {
            technical_name: "pv".to_string(),
            name: "PV\nline".to_string(),
        },
        "d/{}/config",
        "s/{}/state",
    );
    let payload = config_to_json(&config);
    let value: serde_json::Value = serde_json::from_str(payload.as_str()).unwrap();
    assert_eq!(
        value["unique_id"].as_str().unwrap(),
        "solaredge2mqtta\"b\\cpv"
    );
    assert_eq!(value["device"]["name"].as_str().unwrap(), "solaredge2mqtt PV\nline");
}

#[test]
fn json_quote_escapes() {
    assert_eq!(json_quote("plain").as_str(), "\"plain\"");
    assert_eq!(json_quote("a\"b").as_str(), "\"a\\\"b\"");
    assert_eq!(json_quote("a\\b").as_str(), "\"a\\\\b\"");
    assert_eq!(json_quote("a\nb\tc\rd").as_str(), "\"a\\nb\\tc\\rd\"");
    assert_eq!(json_quote("\u{1}").as_str(), "\"\\u0001\"");
    let round: serde_json::Value =
        serde_json::from_str(json_quote("q\"w\\e\nr\u{2}").as_str()).unwrap();
    assert_eq!(round.as_str().unwrap(), "q\"w\\e\nr\u{2}");
}

#[test]
fn fetch_ok_with_body_is_snapshot() {
    let result = interpret_fetch_response(200, Some(root(5000, 3000, -2000)));
    let snapshot = result.unwrap();
    assert_eq!(snapshot.pv.current_power, 5000);
    assert_eq!(snapshot.unit, "kW");
}

#[test]
fn fetch_ok_without_body_is_decode_error() {
    let result = interpret_fetch_response(200, None);
    assert_eq!(result.unwrap_err(), FetchError::DecodeError);
}

#[test]
fn fetch_unauthorized_is_auth_error() {
    let result = interpret_fetch_response(401, Some(root(0, 0, 0)));
    assert_eq!(result.unwrap_err(), FetchError::AuthError);
}

#[test]
fn fetch_other_statuses_are_network_errors() {
    assert_eq!(
        interpret_fetch_response(500, None).unwrap_err(),
        FetchError::NetworkError
    );
    assert_eq!(
        interpret_fetch_response(404, None).unwrap_err(),
        FetchError::NetworkError
    );
    assert_eq!(
        interpret_fetch_response(302, Some(root(1, 2, 3))).unwrap_err(),
        FetchError::NetworkError
    );
}

#[test]
fn fetch_error_messages() {
    assert_eq!(
        FetchError::NetworkError.message().as_str(),
        "Fail to fetch data from monitoringapi.solaredge.com"
    );
    assert_eq!(
        FetchError::AuthError.message().as_str(),
        "Api key rejected for this site"
    );
    assert_eq!(
        FetchError::DecodeError.message().as_str(),
        "monitoringapi.solaredge.com cannot be decoded"
    );
}
