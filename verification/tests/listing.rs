use tatoteco::catalog::Catalog;
use tatoteco::listing::{
    escape_html, render_page, BUTTON_CLOSE, BUTTON_IMAGE, BUTTON_LABEL, BUTTON_OPEN, PAGE_HEAD,
    PAGE_TAIL,
};

fn names(list: &[&str]) -> Vec<String> {
    list.iter().map(|s| s.to_string()).collect()
}

#[test]
fn escape_leaves_plain_text_alone() {
    assert_eq!(escape_html("00-splash.png"), "00-splash.png");
    assert_eq!(escape_html("dragons lair"), "dragons lair");
    assert_eq!(escape_html(""), "");
    assert_eq!(escape_html("ch\u{e2}teau"), "ch\u{e2}teau");
}

#[test]
fn escape_replaces_the_five_special_characters() {
    assert_eq!(escape_html("&"), "&amp;");
    assert_eq!(escape_html("<"), "&lt;");
    assert_eq!(escape_html(">"), "&gt;");
    assert_eq!(escape_html("\""), "&quot;");
    assert_eq!(escape_html("'"), "&#39;");
    assert_eq!(
        escape_html("a'); alert(\"x\") <b>&amp;"),
        "a&#39;); alert(&quot;x&quot;) &lt;b&gt;&amp;amp;"
    );
}

#[test]
fn empty_catalog_gives_head_and_tail() {
    let page = render_page(&Catalog::build(&Vec::new()));
    assert_eq!(page, format!("{PAGE_HEAD}{PAGE_TAIL}"));
    assert!(page.starts_with("<!doctype html>"));
    assert!(page.contains("req.open(\"POST\", \"map\");"));
    assert!(page.contains("JSON.stringify({\"map\": map})"));
    assert!(page.ends_with("</html>\n"));
}

#[test]
fn page_holds_one_control_per_entry_in_catalog_order() {
    let catalog = Catalog::build(&names(&["12-dragons_lair.png", "readme.md", "00-splash.png"]));
    let page = render_page(&catalog);

    let splash = "    <button style=\"width:460px; font-size:2em\" data-map=\"00-splash.png\" \
                  onclick=\"change_to(this.dataset.map)\"><img style=\"width:450px\" \
                  src=\"img/00-splash.png\" /><br/>splash</button>\n";
    let lair = "    <button style=\"width:460px; font-size:2em\" data-map=\"12-dragons_lair.png\" \
                onclick=\"change_to(this.dataset.map)\"><img style=\"width:450px\" \
                src=\"img/12-dragons_lair.png\" /><br/>dragons lair</button>\n";
    assert_eq!(page, format!("{PAGE_HEAD}{splash}{lair}{PAGE_TAIL}"));
    assert_eq!(page.matches("<button").count(), 2);
    assert!(!page.contains("readme.md"));
}

#[test]
fn control_is_made_of_its_four_fixed_parts() {
    let catalog = Catalog::build(&names(&["a.png"]));
    let page = render_page(&catalog);
    let control = format!("{BUTTON_OPEN}a.png{BUTTON_IMAGE}a.png{BUTTON_LABEL}a{BUTTON_CLOSE}");
    assert_eq!(page, format!("{PAGE_HEAD}{control}{PAGE_TAIL}"));
}

#[test]
fn page_escapes_file_names_and_labels() {
    let catalog = Catalog::build(&names(&["01-tom's_<inn>&\"bar\".png"]));
    let page = render_page(&catalog);
    let name = "01-tom&#39;s_&lt;inn&gt;&amp;&quot;bar&quot;.png";
    let label = "tom&#39;s &lt;inn&gt;&amp;&quot;bar&quot;";
    let control = format!("{BUTTON_OPEN}{name}{BUTTON_IMAGE}{name}{BUTTON_LABEL}{label}{BUTTON_CLOSE}");
    assert_eq!(page, format!("{PAGE_HEAD}{control}{PAGE_TAIL}"));
    assert!(!page.contains("tom's"));
    assert!(!page.contains("<inn>"));
}
