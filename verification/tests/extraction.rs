use kakomon::extract::extract_kakomon;
use kakomon::payload::Block;
use kakomon::payload::format_record;
use kakomon::payload::parse_payload;
use kakomon::resolve::resolve;

fn home_html() -> String {
    let mut s = String::new();
    s.push_str("<html><head><title>top</title></head><body>");
    s.push_str("<div class=\"menu\">navigation</div>");
    s.push_str("<div class=\"kako\">");
    s.push_str("<div class=\"anslink\"><a href=\"/kakomon/21_haru/q31.html\">解答・解説</a></div>");
    s.push_str("<div class=\"mondai\">クライアントサーバシステムにおけるストアドプロシージャに関する記述のうち，誤っているものはどれか。</div>");
    s.push_str("<div class=\"ansbg\"><ul>");
    s.push_str("<li>機密性の高いデータに対する処理を特定のプロシージャ呼出しに限定することによって，セキュリティを向上させることができる。</li>");
    s.push_str("<li>システム全体に共通な処理をプロシージャとして格納することによって，処理の標準化を行うことができる。</li>");
    s.push_str("<li>データベースへのアクセスを細かい単位でプロシージャ化することによって，処理性能(スループット)を向上させることができる。</li>");
    s.push_str("<li>複数のSQL文から成る手続を1回の呼出しで実行できるので，クライアントとサーバ間の通信回数を減らすことができる。</li>");
    s.push_str("</ul></div>");
    s.push_str("</div>");
    s.push_str("<div class=\"kako\"><div class=\"mondai\">later match, ignored</div></div>");
    s.push_str("</body></html>");
    s
}

#[test]
fn test_extract_kakomon_url_from_home() {
    let html = home_html();
    let html_text = html.as_str();
    let url = url::Url::parse("https://www.ap-siken.com/").expect("invalid url");
    let kakomon = extract_kakomon(html_text, url.as_str()).unwrap();

    // trim
    let left = kakomon
        .text
        .split("\n")
        .map(|s| s.trim())
        .collect::<Vec<_>>()
        .join("\n");
    let right = r#"https://www.ap-siken.com/kakomon/21_haru/q31.html
クライアントサーバシステムにおけるストアドプロシージャに関する記述のうち，誤っているものはどれか。
1. 機密性の高いデータに対する処理を特定のプロシージャ呼出しに限定することによって，セキュリティを向上させることができる。
2. システム全体に共通な処理をプロシージャとして格納することによって，処理の標準化を行うことができる。
3. データベースへのアクセスを細かい単位でプロシージャ化することによって，処理性能(スループット)を向上させることができる。
4. 複数のSQL文から成る手続を1回の呼出しで実行できるので，クライアントとサーバ間の通信回数を減らすことができる。
"#;
    println!("{}", &left);
    println!("{}", &right);
    assert_eq!(left.as_str(), right);
}

#[test]
fn end_to_end_fragment_title_and_text() {
    let html = home_html();
    let record = extract_kakomon(html.as_str(), "https://www.ap-siken.com/").unwrap();
    assert_eq!(record.title.as_str(), "解答・解説");
    assert!(record
        .text
        .starts_with("https://www.ap-siken.com/kakomon/21_haru/q31.html\n"));
    assert!(record.text.ends_with("減らすことができる。\n"));
}

#[test]
fn absolute_href_ignores_base() {
    let a = resolve("https://one.example/dir/", "https://other.example/x.html").unwrap();
    let b = resolve("https://two.example/", "https://other.example/x.html").unwrap();
    assert_eq!(a, b);
    assert_eq!(a.as_str(), "https://other.example/x.html");
}

#[test]
fn relative_href_joins_base() {
    let r = resolve("https://www.ap-siken.com/a/b.html", "c.html").unwrap();
    assert_eq!(r.as_str(), "https://www.ap-siken.com/a/c.html");
    let root = resolve("https://www.ap-siken.com/a/b.html", "/kakomon/q1.html").unwrap();
    assert_eq!(root.as_str(), "https://www.ap-siken.com/kakomon/q1.html");
    assert!(root.starts_with("https://www.ap-siken.com/"));
}

#[test]
fn unresolvable_href_yields_nothing() {
    // "http://" has an empty host: it neither parses alone nor joins.
    assert!(resolve("https://www.ap-siken.com/", "http://").is_none());
    // an unparseable base cannot resolve a relative reference
    assert!(resolve("not a url", "page.html").is_none());
}

#[test]
fn no_marker_yields_no_record() {
    let html = "<html><body><div class=\"other\">x</div><p>y</p></body></html>";
    assert!(extract_kakomon(html, "https://www.ap-siken.com/").is_none());
}

#[test]
fn first_marked_element_wins() {
    let html = "<html><body>\
        <div class=\"kako\"><div class=\"mondai\">first</div></div>\
        <div class=\"kako\"><div class=\"mondai\">second</div></div>\
        </body></html>";
    let record = extract_kakomon(html, "https://www.ap-siken.com/").unwrap();
    assert_eq!(record.text.as_str(), "first\n");
}

#[test]
fn nested_marker_found_in_document_order() {
    let html = "<html><body><div class=\"outer\">\
        <div class=\"kako\"><div class=\"mondai\">inner</div></div>\
        </div></body></html>";
    let record = extract_kakomon(html, "https://www.ap-siken.com/").unwrap();
    assert_eq!(record.text.as_str(), "inner\n");
}

#[test]
fn multi_class_element_is_excluded() {
    // exact-equality class matching: a multi-class element does not match
    let html = "<html><body><div class=\"kako extra\">\
        <div class=\"mondai\">x</div></div></body></html>";
    assert!(extract_kakomon(html, "https://www.ap-siken.com/").is_none());
}

#[test]
fn extraction_is_deterministic() {
    let html = home_html();
    let a = extract_kakomon(html.as_str(), "https://www.ap-siken.com/").unwrap();
    let b = extract_kakomon(html.as_str(), "https://www.ap-siken.com/").unwrap();
    assert_eq!(a.title, b.title);
    assert_eq!(a.text, b.text);
}

#[test]
fn scan_order_links_body_images() {
    // in document order: image, statement, link — the text still holds the
    // link line first, the statement next, the image line last
    let html = "<html><body><div class=\"kako\">\
        <img src=\"/img/fig1.png\">\
        <div class=\"mondai\">statement</div>\
        <a href=\"/kakomon/q9.html\">answer</a>\
        </div></body></html>";
    let record = extract_kakomon(html, "https://www.ap-siken.com/").unwrap();
    assert_eq!(
        record.text.as_str(),
        "https://www.ap-siken.com/kakomon/q9.html\nstatement\nhttps://www.ap-siken.com/img/fig1.png\n"
    );
}

#[test]
fn numbering_restarts_per_container() {
    let html = "<html><body><div class=\"kako\">\
        <div class=\"ansbg\"><ul><li>a</li><li>b</li></ul></div>\
        <div class=\"ansbg\"><ul><li>c</li><li>d</li></ul></div>\
        </div></body></html>";
    let record = extract_kakomon(html, "https://www.ap-siken.com/").unwrap();
    assert_eq!(record.text.as_str(), "1. a\n2. b\n1. c\n2. d\n");
}

#[test]
fn numbering_reaches_two_digits() {
    let mut html = String::new();
    html.push_str("<html><body><div class=\"kako\"><div class=\"ansbg\"><ul>");
    for i in 0..12 {
        html.push_str(&format!("<li>opt{}</li>", i));
    }
    html.push_str("</ul></div></div></body></html>");
    let record = extract_kakomon(html.as_str(), "https://www.ap-siken.com/").unwrap();
    assert!(record.text.contains("9. opt8\n10. opt9\n11. opt10\n12. opt11\n"));
}

#[test]
fn missing_attribute_skips_element() {
    // a link without href and an image without src contribute nothing
    let html = "<html><body><div class=\"kako\">\
        <a>no target</a>\
        <img>\
        <div class=\"mondai\">still here</div>\
        </div></body></html>";
    let record = extract_kakomon(html, "https://www.ap-siken.com/").unwrap();
    assert_eq!(record.text.as_str(), "still here\n");
}

#[test]
fn unresolvable_reference_skips_entry() {
    let html = "<html><body><div class=\"kako\">\
        <a href=\"http://\">broken</a>\
        <div class=\"mondai\">kept</div>\
        </div></body></html>";
    let record = extract_kakomon(html, "https://www.ap-siken.com/").unwrap();
    assert_eq!(record.text.as_str(), "kept\n");
}

#[test]
fn title_concatenates_without_separator() {
    let html = "<html><body><div class=\"kako\">\
        <div class=\"anslink\">part one</div>\
        <div class=\"anslink\">part two</div>\
        </div></body></html>";
    let record = extract_kakomon(html, "https://www.ap-siken.com/").unwrap();
    assert_eq!(record.title.as_str(), "part onepart two");
}

#[test]
fn format_then_parse_recovers_record() {
    let html = home_html();
    let record = extract_kakomon(html.as_str(), "https://www.ap-siken.com/").unwrap();
    let payload = format_record(&record);
    let back = parse_payload(&payload).unwrap();
    assert_eq!(back.title, record.title);
    assert_eq!(back.text, record.text);
}

#[test]
fn payload_has_header_divider_section() {
    let html = home_html();
    let record = extract_kakomon(html.as_str(), "https://www.ap-siken.com/").unwrap();
    let payload = format_record(&record);
    assert_eq!(payload.blocks.len(), 3);
    assert!(matches!(&payload.blocks[0], Block::Header(t) if t == &record.title));
    assert!(matches!(&payload.blocks[1], Block::Divider));
    assert!(matches!(&payload.blocks[2], Block::Section(x) if x == &record.text));
}

#[test]
fn relative_resolution_keeps_scheme() {
    // whenever the reference is not itself an absolute URL and resolution
    // succeeds, the result carries the base's scheme
    let base = "https://www.ap-siken.com/a/b.html";
    let tricky = [
        "page.html",
        "/rooted/x.html",
        "//other.example/x",
        "?q=1",
        "#frag",
        "https:same-scheme",
    ];
    for href in tricky.iter() {
        if url::Url::parse(href).is_err() {
            if let Some(r) = resolve(base, href) {
                assert!(r.starts_with("https:"), "{} resolved to {}", href, r);
            }
        }
    }
}

#[test]
fn plain_relative_href_keeps_authority() {
    // a reference that names no authority inherits the base's host and port
    let base = "https://user@www.ap-siken.com:8443/a/b.html";
    for href in ["page.html", "/rooted.html", "?q=1", "#f", "x/y/../z.html"].iter() {
        let r = resolve(base, href).unwrap();
        assert!(
            r.contains("www.ap-siken.com:8443/"),
            "{} resolved to {}",
            href,
            r
        );
    }
}

#[test]
fn json_payload_round_trips_through_a_parser() {
    let html = home_html();
    let record = extract_kakomon(html.as_str(), "https://www.ap-siken.com/").unwrap();
    let body = kakomon::payload::record_json(&record);
    let v: serde_json::Value = serde_json::from_str(body.as_str()).unwrap();
    assert_eq!(v["blocks"][0]["type"].as_str().unwrap(), "header");
    assert_eq!(v["blocks"][0]["text"]["type"].as_str().unwrap(), "plain_text");
    assert_eq!(
        v["blocks"][0]["text"]["text"].as_str().unwrap(),
        record.title.as_str()
    );
    assert_eq!(v["blocks"][0]["text"]["emoji"].as_bool().unwrap(), true);
    assert_eq!(v["blocks"][1]["type"].as_str().unwrap(), "divider");
    assert_eq!(v["blocks"][2]["type"].as_str().unwrap(), "section");
    assert_eq!(v["blocks"][2]["text"]["type"].as_str().unwrap(), "mrkdwn");
    assert_eq!(
        v["blocks"][2]["text"]["text"].as_str().unwrap(),
        record.text.as_str()
    );
}

#[test]
fn json_escaping_preserves_awkward_characters() {
    let record = kakomon::extract::ItemRecord {
        title: "a\"b\\c".to_string(),
        text: "x\ny\tz\r\u{1}\u{1f}done".to_string(),
    };
    let body = kakomon::payload::record_json(&record);
    let v: serde_json::Value = serde_json::from_str(body.as_str()).unwrap();
    assert_eq!(
        v["blocks"][0]["text"]["text"].as_str().unwrap(),
        record.title.as_str()
    );
    assert_eq!(
        v["blocks"][2]["text"]["text"].as_str().unwrap(),
        record.text.as_str()
    );
}
