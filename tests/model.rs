use sigscan::{
    highlight_for_system, merged_type, popup_margin, Highlight, Signature, SignatureId, SignatureType,
    SignatureWormhole, SystemClassification, WormholeLife, WormholeMass,
};

#[test]
fn wormhole_states_as_text() {
    assert_eq!(WormholeLife::Stable.as_str(), "Stable");
    assert_eq!(WormholeLife::EndOfLife.as_str(), "EOL");
    assert_eq!(WormholeMass::Stable.as_str(), "Stable");
    assert_eq!(WormholeMass::Destab.as_str(), "Destab");
    assert_eq!(WormholeMass::Critical.as_str(), "Critical");
}

#[test]
fn identifier_text_and_equality() {
    let id = SignatureId::new("ABC", "123");
    assert_eq!(id.to_string(), "ABC-123");
    assert!(id.same_as(&SignatureId::new("ABC", "123")));
    assert!(!id.same_as(&SignatureId::new("ABC", "124")));
    assert!(!id.same_as(&SignatureId::new("ABD", "123")));
}

#[test]
fn has_name_policy() {
    assert!(!SignatureType::Unknown.has_name());
    assert!(SignatureType::Wormhole(SignatureWormhole::default()).has_name());
    assert!(!SignatureType::Relic(None).has_name());
    assert!(SignatureType::Relic(Some("Temple".to_owned())).has_name());
    assert!(!SignatureType::Combat(None).has_name());
    assert!(SignatureType::Ore(Some("Vein".to_owned())).has_name());
    assert!(!SignatureType::Gas(None).has_name());
    assert!(SignatureType::Data(Some("Survey".to_owned())).has_name());
}

#[test]
fn classification_text() {
    assert_eq!(SignatureType::Unknown.to_string(), "Unknown");
    assert_eq!(SignatureType::Combat(None).to_string(), "Combat");
    assert_eq!(SignatureType::Combat(Some("Hideaway".to_owned())).to_string(), "Combat   Hideaway");
    assert_eq!(SignatureType::Ore(Some("Vein".to_owned())).to_string(), "Ore      Vein");
    assert_eq!(SignatureType::Data(Some("Survey".to_owned())).to_string(), "Data     Survey");
    assert_eq!(SignatureType::Relic(Some("Temple".to_owned())).to_string(), "Relic    Temple");
    assert_eq!(SignatureType::Gas(None).to_string(), "Gas");
    assert_eq!(
        SignatureType::Wormhole(SignatureWormhole::default()).to_string(),
        "WH       ? -> ?      Stable      Stable"
    );
    let wh = SignatureWormhole::new(
        Some("K162".to_owned()),
        Some("C5".to_owned()),
        WormholeLife::EndOfLife,
        WormholeMass::Destab,
    );
    assert_eq!(SignatureType::Wormhole(wh).to_string(), "WH       K162 -> C5      EOL      Destab");
}

#[test]
fn signature_text() {
    let sig = Signature::new("ABC", "123", SignatureType::Relic(Some("Temple".to_owned())));
    assert_eq!(sig.to_string(), "ABC-123      Relic    Temple");
}

#[test]
fn signature_rows() {
    let unknown = Signature::new("ABC", "123", SignatureType::Unknown);
    assert_eq!(unknown.to_row(), vec!["ABC-123", "Unknown", "", ""]);
    let relic = Signature::new("ABC", "123", SignatureType::Relic(None));
    assert_eq!(relic.to_row(), vec!["ABC-123", "Relic", "?", ""]);
    let gas = Signature::new("ABC", "123", SignatureType::Gas(Some("Cloud".to_owned())));
    assert_eq!(gas.to_row(), vec!["ABC-123", "Gas", "Cloud", ""]);
    let wh = SignatureWormhole::new(None, Some("C2".to_owned()), WormholeLife::Stable, WormholeMass::Critical);
    let hole = Signature::new("DEF", "456", SignatureType::Wormhole(wh));
    assert_eq!(hole.to_row(), vec!["DEF-456", "Wormhole", "C2", "Stable/Critical"]);
    let fresh = Signature::new("DEF", "456", SignatureType::Wormhole(SignatureWormhole::default()));
    assert_eq!(fresh.to_row(), vec!["DEF-456", "Wormhole", "", "Stable/Stable"]);
}

#[test]
fn defaults() {
    let wh = SignatureWormhole::default();
    assert_eq!(wh.wh_type, None);
    assert_eq!(wh.destination, None);
    assert_eq!(wh.life, WormholeLife::Stable);
    assert_eq!(wh.mass, WormholeMass::Stable);
    assert_eq!(SignatureType::default(), SignatureType::Unknown);
    let sig = Signature::default();
    assert_eq!(sig.identifier.id, "");
    assert_eq!(sig.identifier.number, "");
    assert_eq!(sig.signature_type, SignatureType::Unknown);
}

#[test]
fn merged_type_rules() {
    let named = SignatureType::Relic(Some("Temple".to_owned()));
    assert_eq!(merged_type(&named, SignatureType::Unknown), named);
    assert_eq!(merged_type(&named, SignatureType::Relic(None)), named);
    assert_eq!(merged_type(&named, SignatureType::Data(None)), named);
    assert_eq!(
        merged_type(&named, SignatureType::Data(Some("Survey".to_owned()))),
        SignatureType::Data(Some("Survey".to_owned()))
    );
    assert_eq!(merged_type(&SignatureType::Unknown, SignatureType::Gas(None)), SignatureType::Gas(None));
    assert_eq!(
        merged_type(&named, SignatureType::Wormhole(SignatureWormhole::default())),
        SignatureType::Wormhole(SignatureWormhole::default())
    );
}

#[test]
fn system_classification_text() {
    assert_eq!(SystemClassification::HighSec.as_str(), "High-Sec");
    assert_eq!(SystemClassification::LowSec.as_str(), "Low-Sec");
    assert_eq!(SystemClassification::NullSec.as_str(), "Null-Sec");
    assert_eq!(SystemClassification::WSpace(0).as_str(), "Class-0");
    assert_eq!(SystemClassification::WSpace(5).as_str(), "Class-5");
    assert_eq!(SystemClassification::WSpace(13).as_str(), "Class-13");
    assert_eq!(SystemClassification::WSpace(100).as_str(), "Class-100");
    assert_eq!(SystemClassification::WSpace(255).as_str(), "Class-255");
}

#[test]
fn system_highlight() {
    assert_eq!(highlight_for_system("High-Sec"), Highlight::Green);
    assert_eq!(highlight_for_system("Low-Sec"), Highlight::Yellow);
    assert_eq!(highlight_for_system("Null-Sec"), Highlight::Red);
    assert_eq!(highlight_for_system("Class-3"), Highlight::Magenta);
    assert_eq!(highlight_for_system(""), Highlight::Magenta);
}

#[test]
fn popup_margins() {
    assert_eq!(popup_margin(40), 30);
    assert_eq!(popup_margin(100), 0);
    assert_eq!(popup_margin(0), 50);
    assert_eq!(popup_margin(35), 32);
}
