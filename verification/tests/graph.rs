use kamipad::graph::graphiql_source;
use kamipad::graph::SCRIPT;
use kamipad::graph::STYLE;

#[test]
fn page_holds_title_style_address_and_script_in_their_places() {
    let page = graphiql_source("Kamipad - GraphiQL", "/api/graphql");
    assert!(page.starts_with("\n\t\t\t<!DOCTYPE html>\n\t\t\t<html>\n\t\t\t\t<head>\n"));
    assert!(page.contains("<title>Kamipad - GraphiQL</title>\n"));
    assert!(page.contains("<script>var GRAPHQL_URL = '/api/graphql';</script>\n"));
    assert!(page.contains(STYLE));
    assert!(page.contains(SCRIPT));
    assert!(page.ends_with("\n\t\t\t\t</body>\n\t\t\t</html>\n\t\t"));

    let title = page.find("<title>").unwrap();
    let style = page.find(STYLE).unwrap();
    let url = page.find("GRAPHQL_URL = '/api/graphql'").unwrap();
    let script = page.find(SCRIPT).unwrap();
    assert!(title < style);
    assert!(style < url);
    assert!(url < script);
}

#[test]
fn page_differs_only_where_title_and_address_stand() {
    let empty = graphiql_source("", "");
    let filled = graphiql_source("T", "U");
    assert_eq!(filled.len(), empty.len() + 2);
    assert_eq!(filled.replacen("<title>T</title>", "<title></title>", 1).replacen(
        "GRAPHQL_URL = 'U'",
        "GRAPHQL_URL = ''",
        1
    ), empty);
    let expected = format!(
        "\n\t\t\t<!DOCTYPE html>\n\t\t\t<html>\n\t\t\t\t<head>\n\t\t\t\t\t<title>{}</title>\n\t\t\t\t\t{}",
        "T", STYLE
    );
    assert!(filled.starts_with(&expected));
}

#[test]
fn title_and_address_are_not_escaped() {
    let page = graphiql_source("<b>", "a'b");
    assert!(page.contains("<title><b></title>"));
    assert!(page.contains("var GRAPHQL_URL = 'a'b';"));
}
