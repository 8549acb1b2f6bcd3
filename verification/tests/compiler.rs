use shiryoku::compiler::{
    cid_reference, compile, compile_body, generate_footer, generate_plain_footer,
    is_remote_destination, parse_markdown_with_images, strip_markdown,
};
use shiryoku::models::{EmailDraft, UserIdentity};

fn identity() -> UserIdentity {
    UserIdentity {
        name: "Ada Lovelace".to_string(),
        role: "Analyst".to_string(),
        department: "Engines".to_string(),
        institution: "Royal Society".to_string(),
        phone: "+44 20 0000".to_string(),
        emails: vec!["ada@example.org".to_string(), "countess@example.org".to_string()],
        footer_color: "#179299".to_string(),
    }
}

fn is_uuid(text: &str) -> bool {
    text.len() == 36
        && text.chars().enumerate().all(|(i, c)| match i {
            8 | 13 | 18 | 23 => c == '-',
            _ => c.is_ascii_digit() || ('a'..='f').contains(&c),
        })
}

#[test]
fn empty_body_compiles_to_nothing() {
    let (html, plain, images) = compile_body("");
    assert_eq!(html, "");
    assert_eq!(plain, "");
    assert!(images.is_empty());
}

#[test]
fn paragraph_renders_to_html_and_plain() {
    let (html, plain, images) = compile_body("Hello *world*");
    assert_eq!(html, "<p>Hello <em>world</em></p>\n");
    assert_eq!(plain, "Hello world\n\n");
    assert!(images.is_empty());
}

#[test]
fn remote_images_are_not_embedded() {
    let source = "![a](http://example.org/a.png) and ![b](https://example.org/b.png)";
    let (html, images) = parse_markdown_with_images(source);
    assert!(images.is_empty());
    assert!(!html.contains("cid:"));
    assert!(html.contains("src=\"http://example.org/a.png\""));
    assert!(html.contains("src=\"https://example.org/b.png\""));
}

#[test]
fn local_images_are_embedded_in_order() {
    let source = "![one](pics/one.png)\n\n![web](https://example.org/w.png)\n\n![two](/tmp/two.jpg)";
    let (html, images) = parse_markdown_with_images(source);
    assert_eq!(images.len(), 2);
    assert_eq!(images[0].path, "pics/one.png");
    assert_eq!(images[1].path, "/tmp/two.jpg");
    for image in &images {
        assert!(is_uuid(&image.cid));
        let reference = format!("src=\"cid:{}\"", image.cid);
        assert_eq!(html.matches(&reference).count(), 1);
        assert_eq!(html.matches(&image.cid).count(), 1);
    }
    assert!(html.contains("src=\"https://example.org/w.png\""));
    assert!(!html.contains("pics/one.png"));
    assert!(!html.contains("/tmp/two.jpg"));
    let first = html.find(&images[0].cid).unwrap();
    let second = html.find(&images[1].cid).unwrap();
    assert!(first < second);
}

#[test]
fn duplicate_local_images_get_distinct_ids() {
    let (html, images) = parse_markdown_with_images("![a](same.png) ![b](same.png)");
    assert_eq!(images.len(), 2);
    assert_eq!(images[0].path, "same.png");
    assert_eq!(images[1].path, "same.png");
    assert_ne!(images[0].cid, images[1].cid);
    assert_eq!(html.matches("cid:").count(), 2);
}

#[test]
fn image_scheme_test_is_case_sensitive_prefix() {
    assert!(is_remote_destination("http://x"));
    assert!(is_remote_destination("https://x"));
    assert!(!is_remote_destination("HTTP://x"));
    assert!(!is_remote_destination("ftp://x"));
    assert!(!is_remote_destination("x/http://y"));
    assert!(!is_remote_destination(""));
    assert_eq!(cid_reference("abc"), "cid:abc");
}

#[test]
fn html_pass_knows_tables_and_strikethrough() {
    let (html, _) = parse_markdown_with_images("~~gone~~\n\n| a | b |\n|---|---|\n| 1 | 2 |\n");
    assert!(html.contains("<del>gone</del>"));
    assert!(html.contains("<table>"));
}

#[test]
fn plain_text_keeps_text_and_code_only() {
    assert_eq!(strip_markdown("# Title\n\nSome `code` here"), "TitleSome code here\n\n");
    assert_eq!(strip_markdown("one\ntwo"), "one\ntwo\n\n");
    assert_eq!(strip_markdown("one  \ntwo"), "one\ntwo\n\n");
    assert_eq!(strip_markdown("[link](http://example.org)"), "link\n\n");
}

#[test]
fn plain_text_has_a_blank_line_after_each_list_item() {
    assert_eq!(strip_markdown("- a\n- b"), "a\n\nb\n\n");
    assert_eq!(strip_markdown("- a\n- b\n"), "a\n\nb\n\n");
    assert_eq!(strip_markdown("1. one\n2. two\n3. three"), "one\n\ntwo\n\nthree\n\n");
    assert_eq!(strip_markdown("before\n\n- only"), "before\n\nonly\n\n");
}

#[test]
fn plain_pass_reads_without_extensions() {
    assert_eq!(strip_markdown("~~gone~~"), "~~gone~~\n\n");
}

#[test]
fn plain_footer_joins_emails_with_bars() {
    assert_eq!(
        generate_plain_footer(&identity()),
        "Ada Lovelace\nAnalyst\nEngines - Royal Society\n\nPhone: +44 20 0000\nEmail: ada@example.org | countess@example.org"
    );
}

#[test]
fn footer_without_emails_has_empty_email_line() {
    let mut id = identity();
    id.emails.clear();
    let plain = generate_plain_footer(&id);
    assert!(plain.ends_with("\nEmail: "));
    let html = generate_footer(&id);
    assert!(html.contains("<span style=\"font-weight: 600;\">Email:</span> \n      </div>"));
    assert!(!html.contains("mailto:"));
}

#[test]
fn footer_of_empty_identity_does_not_fail() {
    let id = UserIdentity {
        name: String::new(),
        role: String::new(),
        department: String::new(),
        institution: String::new(),
        phone: String::new(),
        emails: Vec::new(),
        footer_color: String::new(),
    };
    assert_eq!(generate_plain_footer(&id), "\n\n - \n\nPhone: \nEmail: ");
    assert!(generate_footer(&id).contains("border-left: 4px solid ;"));
}

#[test]
fn html_footer_matches_template() {
    let id = identity();
    let expected = format!(
        "\n    <div style=\"font-family: 'Segoe UI', Tahoma, Geneva, Verdana, sans-serif; border-left: 4px solid {color}; padding-left: 15px; margin-top: 25px; color: #4a4a4a;\">\n      \n      <h3 style=\"margin: 0; color: #2d3436; font-size: 19px; font-weight: 700; line-height: 1.2;\">{name}</h3>\n      \n      <div style=\"margin-top: 4px; font-size: 13px; color: {color}; font-weight: 600; text-transform: uppercase; letter-spacing: 0.5px;\">{role}</div>\n      \n      <div style=\"margin-top: 2px; font-size: 12px; color: #7f8c8d;\">\n        {dept} &bull; {inst}\n      </div>\n\n      <div style=\"margin-top: 8px; font-size: 12px; color: #95a5a6; line-height: 1.4;\">\n        <span style=\"font-weight: 600;\">Tel:</span> {phone}<br>\n        <span style=\"font-weight: 600;\">Email:</span> {emails}\n      </div>\n\n    </div>\n    ",
        color = id.footer_color,
        name = id.name,
        role = id.role,
        dept = id.department,
        inst = id.institution,
        phone = id.phone,
        emails = "<a href=\"mailto:ada@example.org\" style=\"color: #179299; text-decoration: none;\">ada@example.org</a> &bull; <a href=\"mailto:countess@example.org\" style=\"color: #179299; text-decoration: none;\">countess@example.org</a>",
    );
    assert_eq!(generate_footer(&id), expected);
}

#[test]
fn compile_wraps_body_footer_and_beacon() {
    let draft = EmailDraft {
        recipient: "bob@example.org".to_string(),
        subject: "Hi".to_string(),
        body: "Hello".to_string(),
        attachments: vec!["/tmp/a.pdf".to_string(), "b.txt".to_string()],
        scheduled_at: None,
        schedule: Default::default(),
    };
    let id = identity();
    let compiled = compile(&draft, &id, "https://track.example");
    let expected_html = format!(
        "<!DOCTYPE html><html><head><style>body {{ font-family: Arial, sans-serif; color: #333; line-height: 1.6; }} a {{ color: #179299; text-decoration: none; }} img {{ max-width: 100%; }}</style></head><body><div style=\"margin-bottom: 20px;\"><p>Hello</p>\n</div><br>{}<img src=\"https://track.example/pixel.png?id=Ym9iQGV4YW1wbGUub3Jn\" alt=\"\" width=\"1\" height=\"1\" border=\"0\" style=\"width:1px;height:1px;opacity:0.01;\" /></body></html>",
        generate_footer(&id)
    );
    assert_eq!(compiled.html_body, expected_html);
    assert_eq!(compiled.plain_body, format!("Hello\n\n\n\n--\n{}", generate_plain_footer(&id)));
    assert!(!compiled.plain_body.contains("pixel.png"));
    assert!(compiled.inline_images.is_empty());
    assert_eq!(compiled.attachments, draft.attachments);
}

#[test]
fn compile_lists_each_local_image_once() {
    let draft = EmailDraft {
        recipient: "bob@example.org".to_string(),
        subject: String::new(),
        body: "![x](x.png) ![y](y.gif) ![r](http://r/r.png)".to_string(),
        attachments: Vec::new(),
        scheduled_at: None,
        schedule: Default::default(),
    };
    let compiled = compile(&draft, &identity(), "");
    assert_eq!(compiled.inline_images.len(), 2);
    for image in &compiled.inline_images {
        assert_eq!(compiled.html_body.matches(&format!("cid:{}", image.cid)).count(), 1);
    }
}
