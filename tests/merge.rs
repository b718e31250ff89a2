use sigscan::{
    merge_signatures, App, ClipboardItem, Signature, SignatureType, SignatureWormhole, WormholeLife,
    WormholeMass,
};

fn app_on(system: &str, sigs: Vec<Signature>) -> App {
    let mut app = App::new();
    app.current_system = Some(system.to_owned());
    app.system_data.insert(system.to_owned(), sigs);
    app
}

#[test]
fn test_app_merge_in_empty_empty() {
    let mut app = App::new();
    app.current_system = Some("Thera".to_owned());
    app.merge_in(&[]);

    assert!(app.system_data.contains_key("Thera"));
    assert!(app.system_data.get("Thera").unwrap().is_empty());
}

#[test]
fn test_app_merge_in_some_empty() {
    let mut app = App::new();
    app.current_system = Some("Thera".to_owned());
    app.system_data.insert(
        "Thera".to_owned(),
        vec![Signature::new("ABC", "123", SignatureType::Data(Some("Foobar".to_owned())))],
    );
    app.merge_in(&[]);

    assert_eq!(app.system_data.get("Thera").unwrap().len(), 1);
}

#[test]
fn test_app_merge_in_update_type() {
    let mut app = App::new();
    app.current_system = Some("Thera".to_owned());
    app.system_data.insert(
        "Thera".to_owned(),
        vec![Signature::new("ABC", "123", SignatureType::Unknown)],
    );

    app.merge_in(&[ClipboardItem::new("ABC-123", "Relic", "Foobar")]);

    assert_eq!(app.system_data.get("Thera").unwrap().len(), 1);
    let sig = app.system_data.get("Thera").unwrap().get(0).unwrap();
    assert_eq!(sig.identifier.id, "ABC".to_owned());
    assert_eq!(sig.identifier.number, "123");
    match sig.signature_type {
        SignatureType::Relic(ref name) => {
            assert_eq!(name, &Some("Foobar".to_owned()));
        }
        _ => {
            panic!("Should be a relic sig");
        }
    }
}

#[test]
fn test_app_merge_in_add_name() {
    let mut app = App::new();
    app.current_system = Some("Thera".to_owned());
    app.system_data.insert(
        "Thera".to_owned(),
        vec![Signature::new("ABC", "123", SignatureType::Relic(None))],
    );

    app.merge_in(&[ClipboardItem::new("ABC-123", "Relic", "Foobar")]);

    assert_eq!(app.system_data.get("Thera").unwrap().len(), 1);
    let sig = app.system_data.get("Thera").unwrap().get(0).unwrap();
    assert_eq!(sig.identifier.id, "ABC".to_owned());
    assert_eq!(sig.identifier.number, "123");
    match sig.signature_type {
        SignatureType::Relic(ref name) => {
            assert_eq!(name, &Some("Foobar".to_owned()));
        }
        _ => {
            panic!("Should be a relic sig");
        }
    }
}

#[test]
fn test_app_merge_in_no_overwrite_name() {
    let mut app = App::new();
    app.current_system = Some("Thera".to_owned());
    app.system_data.insert(
        "Thera".to_owned(),
        vec![Signature::new("ABC", "123", SignatureType::Relic(Some("Foobar".to_owned())))],
    );

    app.merge_in(&[ClipboardItem::new("ABC-123", "Relic", "")]);

    assert_eq!(app.system_data.get("Thera").unwrap().len(), 1);
    let sig = app.system_data.get("Thera").unwrap().get(0).unwrap();
    assert_eq!(sig.identifier.id, "ABC".to_owned());
    assert_eq!(sig.identifier.number, "123");
    match sig.signature_type {
        SignatureType::Relic(ref name) => {
            assert_eq!(name, &Some("Foobar".to_owned()));
        }
        _ => {
            panic!("Should be a relic sig");
        }
    }
}

#[test]
fn test_app_merge_in_no_wormhole_data_overwrite() {
    let mut app = App::new();
    app.current_system = Some("Thera".to_owned());
    let wh = {
        let mut wh = SignatureWormhole::default();
        wh.life = WormholeLife::EndOfLife;
        wh.wh_type = Some("A239".to_owned());
        wh
    };
    app.system_data.insert(
        "Thera".to_owned(),
        vec![Signature::new("ABC", "123", SignatureType::Wormhole(wh))],
    );

    app.merge_in(&[ClipboardItem::new("ABC-123", "Wormhole", "")]);

    assert_eq!(app.system_data.get("Thera").unwrap().len(), 1);
    let sig = app.system_data.get("Thera").unwrap().get(0).unwrap();
    assert_eq!(sig.identifier.id, "ABC".to_owned());
    assert_eq!(sig.identifier.number, "123");
    match sig.signature_type {
        SignatureType::Wormhole(ref data) => {
            assert_eq!(data.wh_type, Some("A239".to_owned()));
            assert_eq!(data.life, WormholeLife::EndOfLife);
        }
        _ => {
            panic!("Should be a wormhole sig");
        }
    }
}

#[test]
fn merge_undashed_label_adds_name() {
    let mut app = app_on("Thera", vec![Signature::new("ABC", "123", SignatureType::Relic(None))]);
    app.merge_in(&[ClipboardItem::new("ABC123", "Relic", "Foobar")]);
    let list = app.system_data.get("Thera").unwrap();
    assert_eq!(
        list,
        &vec![Signature::new("ABC", "123", SignatureType::Relic(Some("Foobar".to_owned())))]
    );
}

#[test]
fn merge_undashed_label_keeps_name() {
    let before = vec![Signature::new("ABC", "123", SignatureType::Relic(Some("Foobar".to_owned())))];
    let mut app = app_on("Thera", before.clone());
    app.merge_in(&[ClipboardItem::new("ABC123", "Relic", "")]);
    assert_eq!(app.system_data.get("Thera").unwrap(), &before);
}

#[test]
fn merge_twice_changes_nothing_more() {
    let scan = vec![
        ClipboardItem::new("ABC-123", "Relic", ""),
        ClipboardItem::new("DEF-456", "Wormhole", ""),
        ClipboardItem::new("GHI-789", "Data", "Central Survey"),
        ClipboardItem::new("JKL-012", "", ""),
    ];
    let mut list = vec![
        Signature::new("ABC", "123", SignatureType::Relic(Some("Temple".to_owned()))),
        Signature::new("DEF", "456", SignatureType::Unknown),
        Signature::new("XYZ", "999", SignatureType::Gas(None)),
    ];
    merge_signatures(&mut list, &scan);
    let once = list.clone();
    merge_signatures(&mut list, &scan);
    assert_eq!(list, once);
    assert_eq!(list.len(), 5);
    assert_eq!(list[0].signature_type, SignatureType::Relic(Some("Temple".to_owned())));
    assert_eq!(list[1].signature_type, SignatureType::Wormhole(SignatureWormhole::default()));
    assert_eq!(list[2].signature_type, SignatureType::Gas(None));
    assert_eq!(list[3], Signature::new("GHI", "789", SignatureType::Data(Some("Central Survey".to_owned()))));
    assert_eq!(list[4], Signature::new("JKL", "012", SignatureType::Unknown));
}

#[test]
fn merge_keeps_name_for_nameless_rescan() {
    let mut list = vec![Signature::new("ABC", "123", SignatureType::Data(Some("Survey".to_owned())))];
    merge_signatures(&mut list, &[ClipboardItem::new("ABC-123", "Data", "")]);
    assert_eq!(list, vec![Signature::new("ABC", "123", SignatureType::Data(Some("Survey".to_owned())))]);
}

#[test]
fn merge_named_rescan_overwrites() {
    let mut list = vec![Signature::new("ABC", "123", SignatureType::Data(Some("Survey".to_owned())))];
    merge_signatures(&mut list, &[ClipboardItem::new("ABC-123", "Relic", "Temple")]);
    assert_eq!(list, vec![Signature::new("ABC", "123", SignatureType::Relic(Some("Temple".to_owned())))]);
}

#[test]
fn merge_nameless_category_change_overwrites_nameless() {
    let mut list = vec![Signature::new("ABC", "123", SignatureType::Gas(None))];
    merge_signatures(&mut list, &[ClipboardItem::new("ABC-123", "Relic", "")]);
    assert_eq!(list, vec![Signature::new("ABC", "123", SignatureType::Relic(None))]);
}

#[test]
fn merge_wormhole_keeps_all_detail() {
    let wh = SignatureWormhole::new(
        Some("K162".to_owned()),
        Some("C3".to_owned()),
        WormholeLife::EndOfLife,
        WormholeMass::Critical,
    );
    let before = vec![Signature::new("ABC", "123", SignatureType::Wormhole(wh))];
    let mut list = before.clone();
    merge_signatures(&mut list, &[ClipboardItem::new("ABC-123", "Wormhole", "")]);
    assert_eq!(list, before);
}

#[test]
fn merge_wormhole_replaces_site() {
    let mut list = vec![Signature::new("ABC", "123", SignatureType::Relic(Some("Temple".to_owned())))];
    merge_signatures(&mut list, &[ClipboardItem::new("ABC-123", "Wormhole", "")]);
    assert_eq!(list, vec![Signature::new("ABC", "123", SignatureType::Wormhole(SignatureWormhole::default()))]);
}

#[test]
fn merge_unknown_candidate_changes_nothing() {
    let before = vec![Signature::new("ABC", "123", SignatureType::Combat(None))];
    let mut list = before.clone();
    merge_signatures(&mut list, &[ClipboardItem::new("ABC-123", "", "")]);
    assert_eq!(list, before);
}

#[test]
fn merge_appends_one_new_signature() {
    let before = vec![
        Signature::new("ABC", "123", SignatureType::Combat(None)),
        Signature::new("DEF", "456", SignatureType::Unknown),
    ];
    let mut list = before.clone();
    merge_signatures(&mut list, &[ClipboardItem::new("QRS-777", "Gas", "Vital Core")]);
    assert_eq!(list.len(), 3);
    assert_eq!(&list[..2], &before[..]);
    assert_eq!(list[2], Signature::new("QRS", "777", SignatureType::Gas(Some("Vital Core".to_owned()))));
}

#[test]
fn merge_never_drops_missing_signatures() {
    let before = vec![
        Signature::new("ABC", "123", SignatureType::Combat(None)),
        Signature::new("DEF", "456", SignatureType::Unknown),
    ];
    let mut list = before.clone();
    merge_signatures(&mut list, &[ClipboardItem::new("DEF-456", "", "")]);
    assert_eq!(list, before);
}

#[test]
fn merge_uses_first_matching_candidate() {
    let mut list = vec![Signature::new("ABC", "123", SignatureType::Unknown)];
    merge_signatures(
        &mut list,
        &[ClipboardItem::new("ABC-123", "Data", "First"), ClipboardItem::new("ABC-123", "Relic", "Second")],
    );
    assert_eq!(list, vec![Signature::new("ABC", "123", SignatureType::Data(Some("First".to_owned())))]);
}

#[test]
fn merge_ore_category() {
    let mut list = Vec::new();
    merge_signatures(&mut list, &[ClipboardItem::new("ABC-123", "Ore", "Vein")]);
    assert_eq!(list, vec![Signature::new("ABC", "123", SignatureType::Ore(Some("Vein".to_owned())))]);
}

#[test]
fn merge_without_selected_system_does_nothing() {
    let mut app = App::new();
    app.merge_in(&[ClipboardItem::new("ABC-123", "Relic", "Foobar")]);
    assert!(app.current_system.is_none());
    assert!(app.system_signatures().is_empty());
}

#[test]
fn candidate_label_forms() {
    let dashed = ClipboardItem::new("ABC-123", "", "").signature_id();
    assert_eq!((dashed.id.as_str(), dashed.number.as_str()), ("ABC", "123"));
    let plain = ClipboardItem::new("ABC1234", "", "").signature_id();
    assert_eq!((plain.id.as_str(), plain.number.as_str()), ("ABC", "1234"));
    let short = ClipboardItem::new("AB", "", "").signature_id();
    assert_eq!((short.id.as_str(), short.number.as_str()), ("AB", ""));
}

#[test]
fn candidate_proposed_types() {
    assert_eq!(ClipboardItem::new("A-1", "Wormhole", "x").signature_type(), SignatureType::Wormhole(SignatureWormhole::default()));
    assert_eq!(ClipboardItem::new("A-1", "Combat", "").signature_type(), SignatureType::Combat(None));
    assert_eq!(ClipboardItem::new("A-1", "Gas", "Cloud").signature_type(), SignatureType::Gas(Some("Cloud".to_owned())));
    assert_eq!(ClipboardItem::new("A-1", "Mystery", "Cloud").signature_type(), SignatureType::Unknown);
}

#[test]
fn paste_then_merge() {
    let mut app = App::new();
    app.select_system("J123456".to_owned());
    let items = sigscan::parse_paste("ABC-123\tCosmic Signature\tRelic Site\tTemple\t100.0%\t1 AU\nDEF-456\tCosmic Signature\t\t\t1.0%\t3 AU");
    app.merge_in(&items);
    let sigs = app.system_signatures();
    assert_eq!(sigs.len(), 2);
    assert_eq!(sigs[0], &Signature::new("ABC", "123", SignatureType::Relic(Some("Temple".to_owned()))));
    assert_eq!(sigs[1], &Signature::new("DEF", "456", SignatureType::Unknown));
}
