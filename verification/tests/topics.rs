use solaredge2mqtt::homeassistant::generate_site_state_topic_name;
use solaredge2mqtt::homeassistant::generate_site_technical_name;
use solaredge2mqtt::solaredge::generate_monitoring_url;
use solaredge2mqtt::text::substitute_placeholder;

#[test]
fn technical_name_strips_underscores() {
    let name = generate_site_technical_name("42".to_string(), "pv_to_load".to_string());
    assert_eq!(name.as_str(), "solaredge2mqtt42pvtoload");
}

#[test]
fn technical_name_without_underscores_unchanged() {
    let name = generate_site_technical_name("7".to_string(), "grid".to_string());
    assert_eq!(name.as_str(), "solaredge2mqtt7grid");
}

#[test]
fn state_topic_substitutes_prefixed_site_id() {
    let topic = generate_site_state_topic_name(
        "homeassistant/sensor/{}/state".to_string(),
        "42".to_string(),
    );
    assert_eq!(topic.as_str(), "homeassistant/sensor/solaredge2mqtt42/state");
}

#[test]
fn substitution_replaces_every_placeholder() {
    let out = substitute_placeholder("a/{}/b/{}", "x");
    assert_eq!(out.as_str(), "a/x/b/x");
}

#[test]
fn substitution_without_placeholder_is_identity() {
    let out = substitute_placeholder("a/b/c", "x");
    assert_eq!(out.as_str(), "a/b/c");
}

#[test]
fn substitution_of_empty_template_is_empty() {
    let out = substitute_placeholder("", "x");
    assert_eq!(out.as_str(), "");
}

#[test]
fn substitution_is_idempotent() {
    // Substituting again into the already-substituted topic changes nothing:
    // no accumulation of the site id.
    let once = substitute_placeholder("homeassistant/sensor/{}/state", "solaredge2mqtt42");
    let twice = substitute_placeholder(once.as_str(), "solaredge2mqtt42");
    assert_eq!(once, twice);
}

#[test]
fn monitoring_url_shape() {
    let url = generate_monitoring_url("42", "SECRET");
    assert_eq!(
        url.as_str(),
        "https://monitoringapi.solaredge.com/site/42/currentPowerFlow?api_key=SECRET"
    );
}
