use shiryoku::compiler::{CompiledEmail, InlineImage};
use shiryoku::files::{
    describe_file, describe_files, file_with, guess_content_type, LoadedFile,
};
use shiryoku::mailer::{
    assemble, assemble_checked, attachment_leaf, build_tree, inline_leaf, sender_header,
    AssembleError, Body, Disposition, Leaf, MultiKind, Part,
};
use shiryoku::models::UserIdentity;

fn identity(name: &str) -> UserIdentity {
    UserIdentity {
        name: name.to_string(),
        role: String::new(),
        department: String::new(),
        institution: String::new(),
        phone: String::new(),
        emails: Vec::new(),
        footer_color: "#179299".to_string(),
    }
}

fn compiled(images: Vec<(&str, &str)>, attachments: Vec<&str>) -> CompiledEmail {
    CompiledEmail {
        html_body: "<p>html</p>".to_string(),
        plain_body: "plain".to_string(),
        inline_images: images
            .into_iter()
            .map(|(cid, path)| InlineImage { cid: cid.to_string(), path: path.to_string() })
            .collect(),
        attachments: attachments.into_iter().map(|path| path.to_string()).collect(),
    }
}

fn children(part: &Part) -> &Vec<Part> {
    match part {
        Part::Multi(_, children) => children,
        Part::Single(_) => panic!("a leaf has no children"),
    }
}

fn kind(part: &Part) -> MultiKind {
    match part {
        Part::Multi(kind, _) => *kind,
        Part::Single(_) => panic!("a leaf has no kind"),
    }
}

fn leaf(part: &Part) -> &Leaf {
    match part {
        Part::Single(leaf) => leaf,
        Part::Multi(..) => panic!("not a leaf"),
    }
}

fn count_alternatives(part: &Part) -> usize {
    match part {
        Part::Single(_) => 0,
        Part::Multi(kind, children) => {
            let own = if *kind == MultiKind::Alternative { 1 } else { 0 };
            own + children.iter().map(count_alternatives).sum::<usize>()
        }
    }
}

fn text_of(leaf: &Leaf) -> &str {
    match &leaf.body {
        Body::Text(text) => text,
        Body::Binary(_) => panic!("not text"),
    }
}

fn bytes_of(leaf: &Leaf) -> &Vec<u8> {
    match &leaf.body {
        Body::Binary(bytes) => bytes,
        Body::Text(_) => panic!("not binary"),
    }
}

#[test]
fn sender_header_quotes_the_name() {
    assert_eq!(sender_header("Ada Lovelace", "ada@example.org"), "\"Ada Lovelace\" <ada@example.org>");
    assert_eq!(sender_header("", "ada@example.org"), "ada@example.org");
}

#[test]
fn tree_is_mixed_around_related_around_alternative() {
    let message = assemble(
        compiled(vec![("cid-1", "pics/one.png")], vec!["/tmp/report.pdf"]),
        &identity("Ada"),
        "ada@example.org",
        "bob@example.org",
        "Hello",
        vec![Some(vec![1, 2, 3])],
        vec![Some(vec![4, 5])],
    )
    .unwrap();
    assert_eq!(message.from, "\"Ada\" <ada@example.org>");
    assert_eq!(message.to, "bob@example.org");
    assert_eq!(message.subject, "Hello");

    assert_eq!(kind(&message.root), MultiKind::Mixed);
    let mixed = children(&message.root);
    assert_eq!(mixed.len(), 2);
    assert_eq!(kind(&mixed[0]), MultiKind::Related);
    let related = children(&mixed[0]);
    assert_eq!(related.len(), 2);
    assert_eq!(kind(&related[0]), MultiKind::Alternative);
    let alternative = children(&related[0]);
    assert_eq!(alternative.len(), 2);

    let plain = leaf(&alternative[0]);
    assert_eq!(plain.content_type, "text/plain; charset=utf-8");
    assert_eq!(text_of(plain), "plain");
    assert!(plain.content_id.is_none());
    assert!(matches!(plain.disposition, Disposition::Unset));
    let html = leaf(&alternative[1]);
    assert_eq!(html.content_type, "text/html; charset=utf-8");
    assert_eq!(text_of(html), "<p>html</p>");

    let image = leaf(&related[1]);
    assert_eq!(image.content_type, "image/png");
    assert_eq!(image.content_id.as_deref(), Some("<cid-1>"));
    assert!(matches!(&image.disposition, Disposition::Inline(name) if name == "one.png"));
    assert_eq!(bytes_of(image), &vec![1, 2, 3]);

    let attachment = leaf(&mixed[1]);
    assert_eq!(attachment.content_type, "application/pdf");
    assert!(attachment.content_id.is_none());
    assert!(matches!(&attachment.disposition, Disposition::Attachment(name) if name == "report.pdf"));
    assert_eq!(bytes_of(attachment), &vec![4, 5]);
}

#[test]
fn there_is_one_alternative_whatever_travels_along() {
    for images in 0..4usize {
        for attachments in 0..4usize {
            let image_list: Vec<(String, String)> =
                (0..images).map(|i| (format!("cid{}", i), format!("i{}.png", i))).collect();
            let attachment_list: Vec<String> =
                (0..attachments).map(|i| format!("a{}.txt", i)).collect();
            let message = assemble(
                compiled(
                    image_list.iter().map(|(c, p)| (c.as_str(), p.as_str())).collect(),
                    attachment_list.iter().map(|p| p.as_str()).collect(),
                ),
                &identity(""),
                "ada@example.org",
                "bob@example.org",
                "s",
                (0..images).map(|i| Some(vec![i as u8])).collect(),
                (0..attachments).map(|i| Some(vec![i as u8])).collect(),
            )
            .unwrap();
            assert_eq!(count_alternatives(&message.root), 1);
            let mixed = children(&message.root);
            assert_eq!(mixed.len(), 1 + attachments);
            let related = children(&mixed[0]);
            assert_eq!(related.len(), 1 + images);
            let alternative = children(&related[0]);
            assert_eq!(alternative.len(), 2);
            assert_eq!(text_of(leaf(&alternative[0])), "plain");
            assert_eq!(text_of(leaf(&alternative[1])), "<p>html</p>");
        }
    }
}

#[test]
fn unread_inline_image_is_left_out() {
    let message = assemble(
        compiled(vec![("a", "a.png"), ("b", "missing.png"), ("c", "c.gif")], vec![]),
        &identity("Ada"),
        "ada@example.org",
        "bob@example.org",
        "s",
        vec![Some(vec![1]), None, Some(vec![3])],
        vec![],
    )
    .unwrap();
    let related = children(&children(&message.root)[0]);
    assert_eq!(related.len(), 3);
    assert_eq!(leaf(&related[1]).content_id.as_deref(), Some("<a>"));
    assert_eq!(leaf(&related[2]).content_id.as_deref(), Some("<c>"));
    assert_eq!(leaf(&related[2]).content_type, "image/gif");
    let alternative = children(&related[0]);
    assert_eq!(text_of(leaf(&alternative[0])), "plain");
    assert_eq!(text_of(leaf(&alternative[1])), "<p>html</p>");
}

#[test]
fn unread_attachment_is_left_out() {
    let message = assemble(
        compiled(vec![], vec!["a.txt", "gone.txt", "c.bin"]),
        &identity("Ada"),
        "ada@example.org",
        "bob@example.org",
        "s",
        vec![],
        vec![Some(vec![1]), None, Some(vec![3])],
    )
    .unwrap();
    let mixed = children(&message.root);
    assert_eq!(mixed.len(), 3);
    assert!(matches!(&leaf(&mixed[1]).disposition, Disposition::Attachment(name) if name == "a.txt"));
    assert!(matches!(&leaf(&mixed[2]).disposition, Disposition::Attachment(name) if name == "c.bin"));
    assert_eq!(leaf(&mixed[1]).content_type, "text/plain");
    assert_eq!(leaf(&mixed[2]).content_type, "application/octet-stream");
}

#[test]
fn contents_that_are_not_handed_in_count_as_unread() {
    let message = assemble(
        compiled(vec![("a", "a.png"), ("b", "b.png")], vec!["x.txt"]),
        &identity("Ada"),
        "ada@example.org",
        "bob@example.org",
        "s",
        vec![Some(vec![1])],
        vec![],
    )
    .unwrap();
    let mixed = children(&message.root);
    assert_eq!(mixed.len(), 1);
    assert_eq!(children(&mixed[0]).len(), 2);
}

#[test]
fn invalid_sender_is_refused_first() {
    let result = assemble(
        compiled(vec![], vec![]),
        &identity("Ada"),
        "not an address",
        "also not",
        "s",
        vec![],
        vec![],
    );
    assert!(matches!(result, Err(AssembleError::InvalidSender)));
    assert_eq!(AssembleError::InvalidSender.message(), "Invalid sender format (Name <email>)");
}

#[test]
fn invalid_recipient_is_refused() {
    let result = assemble(
        compiled(vec![], vec![]),
        &identity("Ada"),
        "ada@example.org",
        "nobody",
        "s",
        vec![],
        vec![],
    );
    assert!(matches!(result, Err(AssembleError::InvalidRecipient)));
    assert_eq!(AssembleError::InvalidRecipient.message(), "Invalid recipient email");
}

#[test]
fn recipient_may_carry_a_name() {
    let result = assemble(
        compiled(vec![], vec![]),
        &identity(""),
        "ada@example.org",
        "Bob <bob@example.org>",
        "s",
        vec![],
        vec![],
    );
    assert!(result.is_ok());
}

#[test]
fn checked_assembly_goes_by_the_two_answers() {
    let make = || compiled(vec![], vec![]);
    let go = |sender_ok: bool, recipient_ok: bool| {
        assemble_checked(
            sender_ok,
            recipient_ok,
            "f".to_string(),
            "t".to_string(),
            "s".to_string(),
            make(),
            Vec::new(),
            Vec::new(),
        )
    };
    assert!(matches!(go(false, false), Err(AssembleError::InvalidSender)));
    assert!(matches!(go(false, true), Err(AssembleError::InvalidSender)));
    assert!(matches!(go(true, false), Err(AssembleError::InvalidRecipient)));
    let message = go(true, true).unwrap();
    assert_eq!(message.from, "f");
    assert_eq!(message.to, "t");
    assert_eq!(message.subject, "s");
}

#[test]
fn leaves_take_default_names() {
    let nameless = |contents| LoadedFile {
        file_name: None,
        content_type: "image/png".to_string(),
        contents,
    };
    let part = inline_leaf("id", nameless(Some(vec![9]))).unwrap();
    assert!(matches!(&leaf(&part).disposition, Disposition::Inline(name) if name == "image.png"));
    let part = attachment_leaf(nameless(Some(vec![9]))).unwrap();
    assert!(matches!(&leaf(&part).disposition, Disposition::Attachment(name) if name.is_empty()));
    assert!(inline_leaf("id", nameless(None)).is_none());
    assert!(attachment_leaf(nameless(None)).is_none());
}

#[test]
fn files_without_an_image_are_ignored() {
    let images = vec![InlineImage { cid: "only".to_string(), path: "p.png".to_string() }];
    let file = |n: u8| LoadedFile {
        file_name: Some(format!("f{}", n)),
        content_type: "image/png".to_string(),
        contents: Some(vec![n]),
    };
    let root = build_tree(
        "p".to_string(),
        "h".to_string(),
        &images,
        vec![file(1), file(2)],
        Vec::new(),
    );
    let related = children(&children(&root)[0]);
    assert_eq!(related.len(), 2);
    assert_eq!(leaf(&related[1]).content_id.as_deref(), Some("<only>"));
}

#[test]
fn files_are_described_by_path() {
    let file = describe_file("/some/dir/photo.JPG", Some(vec![1, 2]));
    assert_eq!(file.file_name.as_deref(), Some("photo.JPG"));
    assert_eq!(file.content_type, "image/jpeg");
    assert_eq!(file.contents, Some(vec![1, 2]));

    let file = describe_file("notes", None);
    assert_eq!(file.file_name.as_deref(), Some("notes"));
    assert_eq!(file.content_type, "application/octet-stream");
    assert!(file.contents.is_none());

    let file = describe_file("..", Some(Vec::new()));
    assert!(file.file_name.is_none());
    assert_eq!(file.content_type, "application/octet-stream");
    assert_eq!(file.contents, Some(Vec::new()));

    for (path, name, content_type) in [
        ("report.pdf", Some("report.pdf"), "application/pdf"),
        ("a/b.c/page.html", Some("page.html"), "text/html"),
        ("dir.png/readme", Some("readme"), "application/octet-stream"),
        ("archive.tar.gz", Some("archive.tar.gz"), "application/gzip"),
        (".png", Some(".png"), "application/octet-stream"),
        ("odd.zzzzzz", Some("odd.zzzzzz"), "application/octet-stream"),
        ("trailing.", Some("trailing."), "application/octet-stream"),
        ("dir/pic.gif/", Some("pic.gif"), "image/gif"),
        ("", None, "application/octet-stream"),
        ("/", None, "application/octet-stream"),
    ] {
        let file = describe_file(path, None);
        assert_eq!(file.file_name.as_deref(), name, "{:?}", path);
        assert_eq!(file.content_type, content_type, "{:?}", path);
        assert!(!file.content_type.is_empty());
    }
}

#[test]
fn a_plain_name_is_its_own_file_name() {
    for (name, extension) in [
        ("report.pdf", Some("pdf")),
        ("archive.tar.gz", Some("gz")),
        ("PHOTO.JPG", Some("JPG")),
        ("notes", None),
        (".bashrc", None),
        (".hidden.txt", Some("txt")),
        ("trailing.", Some("")),
        ("...", Some("")),
        ("..a", Some("a")),
        ("a..", Some("")),
        ("two words.csv", Some("csv")),
        ("ünï.png", Some("png")),
        ("a.b.c.html", Some("html")),
        ("x", None),
    ] {
        let file = describe_file(name, Some(vec![1]));
        assert_eq!(file.file_name.as_deref(), Some(name));
        assert_eq!(file.content_type, guess_content_type(extension), "{:?}", name);
        assert_eq!(file.contents, Some(vec![1]));
    }
    assert_eq!(describe_file("report.pdf", None).content_type, "application/pdf");
    assert_eq!(describe_file(".hidden.txt", None).content_type, "text/plain");
    assert!(describe_file(".", None).file_name.is_none());
    assert!(describe_file("..", None).file_name.is_none());
    assert!(describe_file("", None).file_name.is_none());
}

#[test]
fn a_file_takes_its_type_from_the_extension_that_was_found() {
    let file = file_with(Some("photo".to_string()), Some("Jpeg".to_string()), Some(vec![7, 8]));
    assert_eq!(file.file_name.as_deref(), Some("photo"));
    assert_eq!(file.content_type, "image/jpeg");
    assert_eq!(file.contents, Some(vec![7, 8]));

    let file = file_with(None, None, None);
    assert!(file.file_name.is_none());
    assert_eq!(file.content_type, "application/octet-stream");
    assert!(file.contents.is_none());

    let file = file_with(Some("a.png".to_string()), Some("csv".to_string()), None);
    assert_eq!(file.file_name.as_deref(), Some("a.png"));
    assert_eq!(file.content_type, "text/csv");
}

#[test]
fn content_types_are_guessed_from_the_extension() {
    assert_eq!(guess_content_type(Some("png")), "image/png");
    assert_eq!(guess_content_type(Some("PNG")), "image/png");
    assert_eq!(guess_content_type(Some("jpg")), "image/jpeg");
    assert_eq!(guess_content_type(Some("txt")), "text/plain");
    assert_eq!(guess_content_type(Some("pdf")), "application/pdf");
    assert_eq!(guess_content_type(Some("")), "application/octet-stream");
    assert_eq!(guess_content_type(Some("no such extension")), "application/octet-stream");
    assert_eq!(guess_content_type(Some(".png")), "application/octet-stream");
    assert_eq!(guess_content_type(None), "application/octet-stream");
}

#[test]
fn files_are_paired_with_contents_by_position() {
    let paths = vec!["a.txt".to_string(), "b.txt".to_string(), "c.txt".to_string()];
    let files = describe_files(&paths, vec![Some(vec![1]), None]);
    assert_eq!(files.len(), 3);
    assert_eq!(files[0].contents, Some(vec![1]));
    assert!(files[1].contents.is_none());
    assert!(files[2].contents.is_none());
    assert_eq!(files[2].file_name.as_deref(), Some("c.txt"));

    let files = describe_files(&paths[..1].to_vec(), vec![Some(vec![1]), Some(vec![2])]);
    assert_eq!(files.len(), 1);
}
