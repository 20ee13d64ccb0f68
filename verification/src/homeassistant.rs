//! Home Assistant auto-discovery: sensor descriptors, per-site identifiers,
//! topic templating, and the discovery configuration payload.

use crate::json::json_string;
use crate::json::push_json_string;
use crate::text::push_char;
use crate::text::remove_underscores;
use crate::text::replace_placeholder;
use crate::text::strip_underscores;
use crate::text::substitute_placeholder;
use vstd::prelude::*;
use vstd::string::*;

verus! {

/// The fixed project prefix used in identifiers, topics and device names.
pub open spec fn project_name() -> Seq<char> {
    "solaredge2mqtt"@
}

/// A fixed publishable metric: a machine key and a human label.
pub struct Sensor {
    pub technical_name: String,
    pub name: String,
}

/// The device block of a discovery payload. Each sensor publishes its own
/// single-entry identifier list, so each appears as its own device.
#[derive(Default, Debug, Clone, PartialEq)]
pub struct Device {
    pub identifiers: Vec<String>,
    pub name: String,
    pub manufacturer: String,
}

/// A Home Assistant MQTT-discovery configuration document.
#[derive(Default, Debug, Clone, PartialEq)]
pub struct Config {
    pub device_class: String,
    pub state_topic: String,
    pub unit_of_measurement: String,
    pub value_template: String,
    pub unique_id: String,
    pub device: Device,
}

/// The stable per-(site, sensor) identifier: the project prefix, the site
/// id, and the sensor's technical name with underscores stripped.
pub open spec fn spec_site_technical_name(site_id: Seq<char>, technical_name: Seq<char>) -> Seq<
    char,
> {
    project_name() + site_id + strip_underscores(technical_name)
}

/// Builds the stable per-(site, sensor) identifier.
pub fn generate_site_technical_name(site_id: String, technical_name: String) -> (r: String)
    ensures
        r@ == spec_site_technical_name(site_id@, technical_name@),
{
    let mut out = String::from_str("solaredge2mqtt");
    out.append(site_id.as_str());
    let stripped = remove_underscores(technical_name.as_str());
    out.append(stripped.as_str());
    proof {
        assert(out@ =~= spec_site_technical_name(site_id@, technical_name@));
    }
    out
}

/// The state topic for one site: the template's placeholder replaced by the
/// project prefix followed by the site id.
pub open spec fn spec_site_state_topic(template: Seq<char>, site_id: Seq<char>) -> Seq<char> {
    replace_placeholder(template, project_name() + site_id)
}

/// Builds the state topic shared by every sensor of one site.
pub fn generate_site_state_topic_name(
    mqtt_homeassistant_state_topic: String,
    site_id: String,
) -> (r: String)
    ensures
        r@ == spec_site_state_topic(mqtt_homeassistant_state_topic@, site_id@),
{
    let mut value = String::from_str("solaredge2mqtt");
    value.append(site_id.as_str());
    substitute_placeholder(mqtt_homeassistant_state_topic.as_str(), value.as_str())
}

/// A comma-separated list of JSON string literals.
pub open spec fn string_list_json(l: Seq<Seq<char>>) -> Seq<char>
    decreases l.len(),
{
    if l.len() == 0 {
        Seq::empty()
    } else if l.len() == 1 {
        json_string(l[0])
    } else {
        json_string(l[0]) + seq![','] + string_list_json(l.skip(1))
    }
}

fn push_string_list_json(out: &mut String, v: &Vec<String>, from: usize)
    requires
        from <= v.len(),
    ensures
        final(out)@ == old(out)@ + string_list_json(
            v@.map_values(|s: String| s@).skip(from as int),
        ),
    decreases v.len() - from,
{
    let ghost l = v@.map_values(|s: String| s@).skip(from as int);
    if from < v.len() {
        proof {
            assert(l[0] == v@[from as int]@);
        }
        push_json_string(out, v[from].as_str());
        if from + 1 < v.len() {
            let ghost mid = out@;
            push_char(out, ',');
            proof {
                assert(out@ =~= mid + seq![',']);
            }
            push_string_list_json(out, v, from + 1);
            proof {
                assert(l.skip(1) =~= v@.map_values(|s: String| s@).skip(from + 1));
                assert(out@ =~= old(out)@ + string_list_json(l));
            }
        } else {
            proof {
                assert(l.len() == 1);
                assert(out@ =~= old(out)@ + string_list_json(l));
            }
        }
    } else {
        proof {
            assert(l.len() == 0);
            assert(out@ =~= old(out)@ + string_list_json(l));
        }
    }
}

/// The device block as a JSON object, over the views of its fields.
pub open spec fn device_json_fields(
    identifiers: Seq<Seq<char>>,
    name: Seq<char>,
    manufacturer: Seq<char>,
) -> Seq<char> {
    "{\"identifiers\":["@ + string_list_json(identifiers) + "],\"name\":"@ + json_string(name)
        + ",\"manufacturer\":"@ + json_string(manufacturer) + "}"@
}

/// The discovery document as a JSON object, over the views of its fields.
pub open spec fn config_json_fields(
    device_class: Seq<char>,
    state_topic: Seq<char>,
    unit: Seq<char>,
    value_template: Seq<char>,
    unique_id: Seq<char>,
    identifiers: Seq<Seq<char>>,
    device_name: Seq<char>,
    manufacturer: Seq<char>,
) -> Seq<char> {
    "{\"device_class\":"@ + json_string(device_class) + ",\"state_topic\":"@ + json_string(
        state_topic,
    ) + ",\"unit_of_measurement\":"@ + json_string(unit) + ",\"value_template\":"@ + json_string(
        value_template,
    ) + ",\"unique_id\":"@ + json_string(unique_id) + ",\"device\":"@ + device_json_fields(
        identifiers,
        device_name,
        manufacturer,
    ) + "}"@
}

/// The JSON document of one discovery configuration value.
pub open spec fn config_json(c: Config) -> Seq<char> {
    config_json_fields(
        c.device_class@,
        c.state_topic@,
        c.unit_of_measurement@,
        c.value_template@,
        c.unique_id@,
        c.device.identifiers@.map_values(|s: String| s@),
        c.device.name@,
        c.device.manufacturer@,
    )
}

/// Serializes a discovery configuration as its JSON document.
pub fn config_to_json(c: &Config) -> (r: String)
    ensures
        r@ == config_json(*c),
{
    let mut out = String::from_str("{\"device_class\":");
    push_json_string(&mut out, c.device_class.as_str());
    out.append(",\"state_topic\":");
    push_json_string(&mut out, c.state_topic.as_str());
    out.append(",\"unit_of_measurement\":");
    push_json_string(&mut out, c.unit_of_measurement.as_str());
    out.append(",\"value_template\":");
    push_json_string(&mut out, c.value_template.as_str());
    out.append(",\"unique_id\":");
    push_json_string(&mut out, c.unique_id.as_str());
    out.append(",\"device\":");
    out.append("{\"identifiers\":[");
    push_string_list_json(&mut out, &c.device.identifiers, 0);
    proof {
        assert(c.device.identifiers@.map_values(|s: String| s@).skip(0)
            =~= c.device.identifiers@.map_values(|s: String| s@));
    }
    out.append("],\"name\":");
    push_json_string(&mut out, c.device.name.as_str());
    out.append(",\"manufacturer\":");
    push_json_string(&mut out, c.device.manufacturer.as_str());
    out.append("}");
    out.append("}");
    proof {
        assert(out@ =~= config_json(*c));
    }
    out
}

/// The full discovery payload for one sensor of one site, over plain values:
/// device class `power`, the shared state topic, unit `kW`, a value template
/// projecting the sensor's field out of the state payload, and the stable
/// identifier used both as `unique_id` and as the device's only identifier.
pub open spec fn spec_discovery_payload(
    site_id: Seq<char>,
    technical_name: Seq<char>,
    display_name: Seq<char>,
    state_template: Seq<char>,
) -> Seq<char> {
    config_json_fields(
        "power"@,
        spec_site_state_topic(state_template, site_id),
        "kW"@,
        "{{ value_json."@ + technical_name + "}}"@,
        spec_site_technical_name(site_id, technical_name),
        seq![spec_site_technical_name(site_id, technical_name)],
        project_name() + " "@ + display_name,
        project_name(),
    )
}

/// Builds one sensor's discovery topic and configuration document. The
/// returned document's `unique_id` and its device's single identifier are
/// the same stable string, derived deterministically from the site id and
/// the sensor's technical name.
pub fn generate_homeassistant_config(
    site_id: &str,
    sensor: &Sensor,
    mqtt_homeassistant_discovery_topic: &str,
    mqtt_homeassistant_state_topic: &str,
) -> (r: (String, Config))
    ensures
        r.0@ == replace_placeholder(mqtt_homeassistant_discovery_topic@, sensor.technical_name@),
        r.1.device_class@ == "power"@,
        r.1.state_topic@ == spec_site_state_topic(mqtt_homeassistant_state_topic@, site_id@),
        r.1.unit_of_measurement@ == "kW"@,
        r.1.value_template@ == "{{ value_json."@ + sensor.technical_name@ + "}}"@,
        r.1.unique_id@ == spec_site_technical_name(site_id@, sensor.technical_name@),
        r.1.device.identifiers@.len() == 1,
        r.1.device.identifiers@[0]@ == r.1.unique_id@,
        r.1.device.name@ == project_name() + " "@ + sensor.name@,
        r.1.device.manufacturer@ == project_name(),
{
    let technical_name_without_dash = generate_site_technical_name(
        String::from_str(site_id),
        sensor.technical_name.clone(),
    );
    let mut value_template = String::from_str("{{ value_json.");
    value_template.append(sensor.technical_name.as_str());
    value_template.append("}}");
    let mut device_name = String::from_str("solaredge2mqtt");
    device_name.append(" ");
    device_name.append(sensor.name.as_str());
    let mut identifiers: Vec<String> = Vec::new();
    identifiers.push(technical_name_without_dash.clone());
    let config = Config {
        device_class: String::from_str("power"),
        state_topic: generate_site_state_topic_name(
            String::from_str(mqtt_homeassistant_state_topic),
            String::from_str(site_id),
        ),
        unit_of_measurement: String::from_str("kW"),
        value_template,
        unique_id: technical_name_without_dash,
        device: Device { identifiers, name: device_name, manufacturer: String::from_str(
            "solaredge2mqtt",
        ) },
    };
    let topic = substitute_placeholder(
        mqtt_homeassistant_discovery_topic,
        sensor.technical_name.as_str(),
    );
    (topic, config)
}

/// Builds the discovery topic and payload of every one of the five fixed
/// sensors for one site, in a fixed order. The load reading is published in
/// the state payload but deliberately gets no discovery entry of its own.
pub fn generate_homeasitant_sensors(
    site_id: &str,
    mqtt_homeassistant_discovery_topic: &str,
    mqtt_homeassistant_state_topic: &str,
) -> (r: Vec<(String, String)>)
    ensures
        r@.len() == 5,
        r@[0].0@ == replace_placeholder(mqtt_homeassistant_discovery_topic@, "pv_to_load"@),
        r@[0].1@ == spec_discovery_payload(
            site_id@,
            "pv_to_load"@,
            "PV to LOAD"@,
            mqtt_homeassistant_state_topic@,
        ),
        r@[1].0@ == replace_placeholder(mqtt_homeassistant_discovery_topic@, "load_to_grid"@),
        r@[1].1@ == spec_discovery_payload(
            site_id@,
            "load_to_grid"@,
            "LOAD to GRID"@,
            mqtt_homeassistant_state_topic@,
        ),
        r@[2].0@ == replace_placeholder(mqtt_homeassistant_discovery_topic@, "grid_to_load"@),
        r@[2].1@ == spec_discovery_payload(
            site_id@,
            "grid_to_load"@,
            "GRID to LOAD"@,
            mqtt_homeassistant_state_topic@,
        ),
        r@[3].0@ == replace_placeholder(mqtt_homeassistant_discovery_topic@, "pv"@),
        r@[3].1@ == spec_discovery_payload(
            site_id@,
            "pv"@,
            "PV"@,
            mqtt_homeassistant_state_topic@,
        ),
        r@[4].0@ == replace_placeholder(mqtt_homeassistant_discovery_topic@, "grid"@),
        r@[4].1@ == spec_discovery_payload(
            site_id@,
            "grid"@,
            "GRID"@,
            mqtt_homeassistant_state_topic@,
        ),
{
    let mut out: Vec<(String, String)> = Vec::new();
    let sensor = Sensor {
        technical_name: String::from_str("pv_to_load"),
        name: String::from_str("PV to LOAD"),
    };
    let (topic, config) = generate_homeassistant_config(
        site_id,
        &sensor,
        mqtt_homeassistant_discovery_topic,
        mqtt_homeassistant_state_topic,
    );
    let payload = config_to_json(&config);
    proof {
        assert(config.device.identifiers@.map_values(|s: String| s@) =~= seq![
            spec_site_technical_name(site_id@, "pv_to_load"@),
        ]);
    }
    out.push((topic, payload));
    let sensor = Sensor {
        technical_name: String::from_str("load_to_grid"),
        name: String::from_str("LOAD to GRID"),
    };
    let (topic, config) = generate_homeassistant_config(
        site_id,
        &sensor,
        mqtt_homeassistant_discovery_topic,
        mqtt_homeassistant_state_topic,
    );
    let payload = config_to_json(&config);
    proof {
        assert(config.device.identifiers@.map_values(|s: String| s@) =~= seq![
            spec_site_technical_name(site_id@, "load_to_grid"@),
        ]);
    }
    out.push((topic, payload));
    let sensor = Sensor {
        technical_name: String::from_str("grid_to_load"),
        name: String::from_str("GRID to LOAD"),
    };
    let (topic, config) = generate_homeassistant_config(
        site_id,
        &sensor,
        mqtt_homeassistant_discovery_topic,
        mqtt_homeassistant_state_topic,
    );
    let payload = config_to_json(&config);
    proof {
        assert(config.device.identifiers@.map_values(|s: String| s@) =~= seq![
            spec_site_technical_name(site_id@, "grid_to_load"@),
        ]);
    }
    out.push((topic, payload));
    let sensor = Sensor { technical_name: String::from_str("pv"), name: String::from_str("PV") };
    let (topic, config) = generate_homeassistant_config(
        site_id,
        &sensor,
        mqtt_homeassistant_discovery_topic,
        mqtt_homeassistant_state_topic,
    );
    let payload = config_to_json(&config);
    proof {
        assert(config.device.identifiers@.map_values(|s: String| s@) =~= seq![
            spec_site_technical_name(site_id@, "pv"@),
        ]);
    }
    out.push((topic, payload));
    let sensor = Sensor {
        technical_name: String::from_str("grid"),
        name: String::from_str("GRID"),
    };
    let (topic, config) = generate_homeassistant_config(
        site_id,
        &sensor,
        mqtt_homeassistant_discovery_topic,
        mqtt_homeassistant_state_topic,
    );
    let payload = config_to_json(&config);
    proof {
        assert(config.device.identifiers@.map_values(|s: String| s@) =~= seq![
            spec_site_technical_name(site_id@, "grid"@),
        ]);
    }
    out.push((topic, payload));
    out
}

/// The site prefix substituted into topics never contains a brace, provided
/// the site id itself has none, so topic templating is idempotent for it.
pub proof fn lemma_prefixed_site_id_brace_free(site_id: Seq<char>)
    requires
        crate::text::brace_free(site_id),
    ensures
        crate::text::brace_free(project_name() + site_id),
        (project_name() + site_id).len() > 0,
{
    reveal_strlit("solaredge2mqtt");
    let prefixed = project_name() + site_id;
    assert forall|i: int| 0 <= i < prefixed.len() implies prefixed[i] != '{' && prefixed[i]
        != '}' by {
        if i < project_name().len() {
            assert(prefixed[i] == project_name()[i]);
        } else {
            assert(prefixed[i] == site_id[i - project_name().len()]);
        }
    }
}

/// Applying the state-topic construction to its own result changes nothing:
/// the site id is substituted once and never accumulates.
pub proof fn lemma_state_topic_idempotent(template: Seq<char>, site_id: Seq<char>)
    requires
        crate::text::brace_free(site_id),
    ensures
        spec_site_state_topic(spec_site_state_topic(template, site_id), site_id)
            == spec_site_state_topic(template, site_id),
{
    lemma_prefixed_site_id_brace_free(site_id);
    crate::text::lemma_substitution_idempotent(template, project_name() + site_id);
}

/// Discovery data is stable: two builds from identical inputs produce
/// byte-identical identifiers and topics, so a republished discovery is an
/// update of the same entity, never a new one.
pub proof fn lemma_discovery_identifier_stability(
    site_id: Seq<char>,
    technical_name: Seq<char>,
    state_template: Seq<char>,
    discovery_template: Seq<char>,
    u1: Seq<char>,
    u2: Seq<char>,
    t1: Seq<char>,
    t2: Seq<char>,
    d1: Seq<char>,
    d2: Seq<char>,
)
    requires
        u1 == spec_site_technical_name(site_id, technical_name),
        u2 == spec_site_technical_name(site_id, technical_name),
        t1 == spec_site_state_topic(state_template, site_id),
        t2 == spec_site_state_topic(state_template, site_id),
        d1 == replace_placeholder(discovery_template, technical_name),
        d2 == replace_placeholder(discovery_template, technical_name),
    ensures
        u1 == u2,
        t1 == t2,
        d1 == d2,
{
}

} // verus!
