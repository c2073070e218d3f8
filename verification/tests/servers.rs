use speedtest_tui::servers::{
    after_fetch, directory_urls, FetchNext, Server, ServerListError, Servers, XmlAttribute, XmlStep,
};

fn attribute(key: &str, value: &str) -> Option<XmlAttribute> {
    Some(XmlAttribute { key: key.to_string(), value: value.to_string() })
}

const LIST: &str = r#"<?xml version="1.0" encoding="UTF-8"?>
<settings>
<servers>
<server url="http://a.example:8080/speedtest/upload.php" lat="1.0" lon="2.0" name="Alpha" country="Aland" cc="AA" sponsor="First" id="101" host="a.example:8080" />
<server url="http://b.example:8080/speedtest/upload.php" name="Beta" country="Bland" sponsor="Second &amp; Co" id="-7" host="b.example:8080"/>
<!-- a comment -->
<other>text</other>
</servers>
</settings>
"#;

#[test]
fn new_directory_is_empty() {
    assert!(Servers::new().get_servers().is_empty());
    assert!(Servers::default().get_servers().is_empty());
    assert!(Servers::new().select(0).is_none());
}

#[test]
fn add_server_appends() {
    let mut servers = Servers::new();
    let mut first = Server::default();
    first.host = "one.example:8080".to_string();
    let mut second = Server::default();
    second.host = "two.example:8080".to_string();
    servers.add_server(first);
    servers.add_server(second);
    assert_eq!(servers.get_servers().len(), 2);
    assert_eq!(servers.get_servers()[0].host, "one.example:8080");
    assert_eq!(servers.get_servers()[1].host, "two.example:8080");
}

#[test]
fn select_builds_the_base_url_from_the_host() {
    let mut servers = Servers::new();
    let mut server = Server::default();
    server.host = "one.example:8080".to_string();
    assert_eq!(server.tester().url, "http://one.example:8080");
    servers.add_server(server);
    assert_eq!(servers.select(0).unwrap().url, "http://one.example:8080");
    assert!(servers.select(1).is_none());
}

#[test]
fn server_from_attributes() {
    let server = Server::from_attributes(&vec![
        attribute("url", "http://a.example/upload.php"),
        attribute("lat", "1.0"),
        attribute("name", "Alpha"),
        attribute("country", "Aland"),
        attribute("sponsor", "First"),
        attribute("id", "42"),
        attribute("host", "a.example:8080"),
    ])
    .unwrap();
    assert_eq!(server.id, 42);
    assert_eq!(server.url, "http://a.example/upload.php");
    assert_eq!(server.name, "Alpha");
    assert_eq!(server.country, "Aland");
    assert_eq!(server.sponsor, "First");
    assert_eq!(server.host, "a.example:8080");
}

#[test]
fn later_attribute_of_the_same_name_wins() {
    let server = Server::from_attributes(&vec![
        attribute("name", "Alpha"),
        attribute("id", "1"),
        attribute("name", "Beta"),
        attribute("id", "2"),
    ])
    .unwrap();
    assert_eq!(server.name, "Beta");
    assert_eq!(server.id, 2);
}

#[test]
fn server_without_attributes_is_blank() {
    let server = Server::from_attributes(&vec![]).unwrap();
    assert_eq!(server.id, 0);
    assert_eq!(server.url, "");
    assert_eq!(server.name, "");
    assert_eq!(server.country, "");
    assert_eq!(server.sponsor, "");
    assert_eq!(server.host, "");
}

#[test]
fn server_with_an_id_that_is_no_number() {
    assert!(Server::from_attributes(&vec![attribute("id", "x1")]).is_none());
    assert!(Server::from_attributes(&vec![attribute("id", "")]).is_none());
    assert!(Server::from_attributes(&vec![attribute("id", "99999999999")]).is_none());
    assert!(
        Server::from_attributes(&vec![attribute("id", "x"), attribute("id", "3")]).is_none()
    );
    assert_eq!(Server::from_attributes(&vec![attribute("id", "-12")]).unwrap().id, -12);
}

#[test]
fn unreadable_attribute_is_passed_over() {
    let server = Server::from_attributes(&vec![
        attribute("id", "9"),
        None,
        attribute("host", "h.example:1"),
        None,
    ])
    .unwrap();
    assert_eq!(server.id, 9);
    assert_eq!(server.host, "h.example:1");
    assert_eq!(server.name, "");
}

#[test]
fn directory_from_xml_with_a_malformed_attribute() {
    let mut servers = Servers::new();
    let text = r#"<s><server id="4" name=Alpha /><server id="5" host="h:2"/></s>"#;
    assert_eq!(servers.update_from_xml(text), Ok(()));
    assert_eq!(servers.get_servers().len(), 2);
    assert_eq!(servers.get_servers()[0].id, 4);
    assert_eq!(servers.get_servers()[0].name, "");
    assert_eq!(servers.get_servers()[1].id, 5);
    assert_eq!(servers.get_servers()[1].host, "h:2");
}

#[test]
fn apply_step_by_kind() {
    let mut servers = Servers::new();
    assert_eq!(servers.apply_step(&XmlStep::Other), Ok(true));
    assert_eq!(servers.get_servers().len(), 0);
    assert_eq!(
        servers.apply_step(&XmlStep::Element(vec![attribute("host", "h:1")])),
        Ok(true)
    );
    assert_eq!(servers.get_servers().len(), 1);
    assert_eq!(servers.get_servers()[0].host, "h:1");
    assert_eq!(
        servers.apply_step(&XmlStep::Element(vec![attribute("id", "no")])),
        Err(ServerListError::InvalidId)
    );
    assert_eq!(servers.get_servers().len(), 1);
    assert_eq!(servers.apply_step(&XmlStep::End), Ok(false));
    assert_eq!(servers.get_servers().len(), 1);
}

#[test]
fn directory_from_xml() {
    let mut servers = Servers::new();
    assert_eq!(servers.update_from_xml(LIST), Ok(()));
    let list = servers.get_servers();
    assert_eq!(list.len(), 2);
    assert_eq!(list[0].id, 101);
    assert_eq!(list[0].name, "Alpha");
    assert_eq!(list[0].country, "Aland");
    assert_eq!(list[0].sponsor, "First");
    assert_eq!(list[0].host, "a.example:8080");
    assert_eq!(list[0].url, "http://a.example:8080/speedtest/upload.php");
    assert_eq!(list[1].id, -7);
    assert_eq!(list[1].name, "Beta");
    assert_eq!(list[1].sponsor, "Second &amp; Co");
    assert_eq!(list[1].host, "b.example:8080");
    assert_eq!(servers.select(1).unwrap().url, "http://b.example:8080");
}

#[test]
fn directory_keeps_earlier_servers_in_front() {
    let mut servers = Servers::new();
    let mut kept = Server::default();
    kept.name = "Kept".to_string();
    servers.add_server(kept);
    assert_eq!(servers.update_from_xml(r#"<s><server id="5" name="New"/></s>"#), Ok(()));
    assert_eq!(servers.get_servers().len(), 2);
    assert_eq!(servers.get_servers()[0].name, "Kept");
    assert_eq!(servers.get_servers()[1].name, "New");
    assert_eq!(servers.get_servers()[1].id, 5);
}

#[test]
fn directory_from_xml_stops_at_an_invalid_id() {
    let mut servers = Servers::new();
    let text = r#"<s><server id="1"/><server id="one"/><server id="3"/></s>"#;
    assert_eq!(servers.update_from_xml(text), Err(ServerListError::InvalidId));
    assert_eq!(servers.get_servers().len(), 1);
    assert_eq!(servers.get_servers()[0].id, 1);
}

#[test]
fn directory_from_text_without_servers() {
    let mut servers = Servers::new();
    assert_eq!(servers.update_from_xml(""), Ok(()));
    assert_eq!(servers.update_from_xml("<servers></servers>"), Ok(()));
    assert_eq!(servers.update_from_xml("plain text"), Ok(()));
    assert_eq!(servers.update_from_xml("<a/>"), Ok(()));
    assert_eq!(servers.get_servers().len(), 1);
    assert_eq!(servers.get_servers()[0].id, 0);
}

#[test]
fn directory_addresses() {
    assert_eq!(
        directory_urls(),
        vec![
            "http://www.speedtest.net/speedtest-servers-static.php",
            "http://c.speedtest.net/speedtest-servers-static.php",
            "http://www.speedtest.net/speedtest-servers.php",
            "http://c.speedtest.net/speedtest-servers.php",
        ]
    );
}

#[test]
fn ids_in_decimal() {
    let id = |text: &str| Server::from_attributes(&vec![attribute("id", text)]).map(|s| s.id);
    assert_eq!(id("0"), Some(0));
    assert_eq!(id("007"), Some(7));
    assert_eq!(id("+5"), Some(5));
    assert_eq!(id("-0"), Some(0));
    assert_eq!(id("2147483647"), Some(i32::MAX));
    assert_eq!(id("-2147483648"), Some(i32::MIN));
    assert_eq!(id("2147483648"), None);
    assert_eq!(id("-2147483649"), None);
    assert_eq!(id("-"), None);
    assert_eq!(id("+"), None);
    assert_eq!(id("+-5"), None);
    assert_eq!(id(" 5"), None);
    assert_eq!(id("5 "), None);
    assert_eq!(id("1_000"), None);
    assert_eq!(id("0x10"), None);
    assert_eq!(id("\u{ff11}"), None);
}

#[test]
fn fetch_moves_through_the_addresses_in_order() {
    assert_eq!(after_fetch(0, None), FetchNext::Ask(1));
    assert_eq!(after_fetch(1, None), FetchNext::Ask(2));
    assert_eq!(after_fetch(2, None), FetchNext::Ask(3));
    assert_eq!(after_fetch(3, None), FetchNext::GiveUp);
    assert_eq!(after_fetch(4, None), FetchNext::GiveUp);
    assert_eq!(after_fetch(usize::MAX, None), FetchNext::GiveUp);
}

#[test]
fn first_text_read_ends_the_fetch() {
    assert_eq!(after_fetch(0, Some(1)), FetchNext::Parse);
    assert_eq!(after_fetch(3, Some(120_000)), FetchNext::Parse);
    assert_eq!(after_fetch(0, Some(0)), FetchNext::GiveUp);
    assert_eq!(after_fetch(2, Some(0)), FetchNext::GiveUp);
}

#[test]
fn directory_from_xml_reads_elements_between_other_steps() {
    let mut servers = Servers::new();
    let text = "<?xml version=\"1.0\"?><!-- c --><a><b id=\"1\"/>t<c><d id=\"2\"/></c></a><e id=\"3\"/>";
    assert_eq!(servers.update_from_xml(text), Ok(()));
    let ids: Vec<i32> = servers.get_servers().iter().map(|s| s.id).collect();
    assert_eq!(ids, vec![1, 2, 3]);
}

#[test]
fn directory_from_xml_reads_the_same_text_the_same_way() {
    let text = r#"<s><server id="1" host="a:1"/><server id="2" host="b:2"/></s>"#;
    let mut once = Servers::new();
    let mut again = Servers::new();
    assert_eq!(once.update_from_xml(text), Ok(()));
    assert_eq!(again.update_from_xml(text), Ok(()));
    assert_eq!(once.get_servers().len(), 2);
    assert_eq!(again.get_servers().len(), 2);
    for i in 0..2 {
        assert_eq!(once.get_servers()[i].id, again.get_servers()[i].id);
        assert_eq!(once.get_servers()[i].host, again.get_servers()[i].host);
    }
}
