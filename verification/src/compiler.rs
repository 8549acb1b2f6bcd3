//! Compiles a markdown draft into the HTML and plain-text bodies of a
//! message, with its footer, its tracking beacon and the list of images
//! that have to travel with it.

use vstd::prelude::*;
use vstd::string::*;
use crate::tracker::{beacon, generate_tracker, token_of};
use crate::markdown::{
    event_views, markdown_events, parse_events, render_html, rendered_html, MdEvent, MdEventView,
    ENABLE_STRIKETHROUGH, ENABLE_TABLES,
};
use crate::models::{EmailDraft, IdentityView, UserIdentity};
use crate::text::{
    copy_texts, decimal_text, join, joined, lemma_numbers_are_written_apart,
    lemma_written_number_reads_back, starts_with, texts, zero_pad, zero_padded,
};

verus! {

/// A local image that is sent inside the message: the content id under
/// which the HTML refers to it, and the file it comes from.
#[derive(Debug)]
pub struct InlineImage {
    pub cid: String,
    pub path: String,
}

/// An inline image as character sequences.
pub struct InlineImageView {
    pub cid: Seq<char>,
    pub path: Seq<char>,
}

impl View for InlineImage {
    type V = InlineImageView;

    open spec fn view(&self) -> InlineImageView {
        InlineImageView { cid: self.cid@, path: self.path@ }
    }
}

/// The content ids of a list of images, in order.
pub open spec fn image_cids(images: Seq<InlineImage>) -> Seq<Seq<char>> {
    images.map_values(|image: InlineImage| image.cid@)
}

/// The source paths of a list of images, in order.
pub open spec fn image_paths(images: Seq<InlineImage>) -> Seq<Seq<char>> {
    images.map_values(|image: InlineImage| image.path@)
}

/// A draft ready for transport.
#[derive(Debug)]
pub struct CompiledEmail {
    pub html_body: String,
    pub plain_body: String,
    pub inline_images: Vec<InlineImage>,
    pub attachments: Vec<String>,
}

/// The parser options of the HTML pass: tables and strikethrough.
pub const HTML_OPTIONS: u32 = ENABLE_TABLES | ENABLE_STRIKETHROUGH;

/// The parser options of the plain-text pass: none.
pub const PLAIN_OPTIONS: u32 = 0;

// ---------------------------------------------------------------------
// Markdown
// ---------------------------------------------------------------------

/// Whether an image destination is fetched by the reader's mail client
/// rather than sent along: it begins with `http://` or `https://`.
pub open spec fn is_remote(dest: Seq<char>) -> bool {
    "http://"@.is_prefix_of(dest) || "https://"@.is_prefix_of(dest)
}

/// The destinations of the images among `events`, in order.
pub open spec fn image_destinations(events: Seq<MdEventView>) -> Seq<Seq<char>>
    decreases events.len(),
{
    if events.len() == 0 {
        Seq::empty()
    } else {
        let before = image_destinations(events.drop_last());
        match events.last() {
            MdEventView::ImageStart(dest) => before.push(dest),
            _ => before,
        }
    }
}

/// Those of `dests` that are local, in order.
pub open spec fn local_destinations(dests: Seq<Seq<char>>) -> Seq<Seq<char>>
    decreases dests.len(),
{
    if dests.len() == 0 {
        Seq::empty()
    } else {
        let before = local_destinations(dests.drop_last());
        if is_remote(dests.last()) {
            before
        } else {
            before.push(dests.last())
        }
    }
}

/// The reference by which the HTML names an embedded image.
pub open spec fn cid_reference_of(cid: Seq<char>) -> Seq<char> {
    "cid:"@ + cid
}

/// The destinations after embedding: a remote one stays, and the local one
/// that comes j-th among the local ones becomes the reference to `cids[j]`.
pub open spec fn rewritten(dests: Seq<Seq<char>>, cids: Seq<Seq<char>>) -> Seq<Seq<char>> {
    Seq::new(
        dests.len(),
        |k: int|
            if is_remote(dests[k]) {
                dests[k]
            } else {
                cid_reference_of(cids[local_destinations(dests.take(k)).len() as int])
            },
    )
}

/// What one event adds to the plain text.
pub open spec fn plain_piece(event: MdEventView) -> Seq<char> {
    match event {
        MdEventView::Text(text) => text,
        MdEventView::Code(code) => code,
        MdEventView::SoftBreak => seq!['\n'],
        MdEventView::HardBreak => seq!['\n'],
        MdEventView::ParagraphEnd => seq!['\n', '\n'],
        MdEventView::ItemEnd => seq!['\n', '\n'],
        _ => Seq::empty(),
    }
}

/// The plain text of a list of events: literal text and inline code, a
/// newline for each line break, a blank line after each paragraph and
/// after each list item.
pub open spec fn plain_text(events: Seq<MdEventView>) -> Seq<char>
    decreases events.len(),
{
    if events.len() == 0 {
        Seq::empty()
    } else {
        plain_text(events.drop_last()) + plain_piece(events.last())
    }
}

/// Whether `id` has the form of a hyphenated lower-case UUID.
pub open spec fn is_uuid(id: Seq<char>) -> bool {
    &&& id.len() == 36
    &&& forall|i: int|
        0 <= i < 36 ==> if i == 8 || i == 13 || i == 18 || i == 23 {
            id[i] == '-'
        } else {
            ('0' <= #[trigger] id[i] <= '9') || ('a' <= id[i] <= 'f')
        }
}

/// Whether `id` is a UUID followed by a hyphen and the number `n`.
pub open spec fn is_numbered_uuid(id: Seq<char>, n: nat) -> bool {
    id == id.take(36) + seq!['-'] + decimal_text(n) && is_uuid(id.take(36))
}

/// Whether `id` can be the content id of the image that comes n-th: it is
/// a UUID, or a UUID numbered `n`.
pub open spec fn is_content_id(id: Seq<char>, n: nat) -> bool {
    is_uuid(id) || is_numbered_uuid(id, n)
}

/// Whether each id can be the content id of the image at its place.
pub open spec fn are_content_ids(ids: Seq<Seq<char>>) -> bool {
    forall|j: int| 0 <= j < ids.len() ==> is_content_id(#[trigger] ids[j], j as nat)
}

/// Whether no id occurs twice.
pub open spec fn are_distinct(ids: Seq<Seq<char>>) -> bool {
    forall|i: int, j: int| 0 <= i < j < ids.len() ==> #[trigger] ids[i] != #[trigger] ids[j]
}

/// `Uuid::new_v4().to_string()`: a random identifier in hyphenated
/// lower-case form. Not proved: the form. Nothing is claimed of which
/// identifier comes back, nor that two calls differ.
#[verifier::external_body]
fn fresh_uuid() -> (id: String)
    ensures
        is_uuid(id@),
{
    uuid::Uuid::new_v4().to_string()
}

/// Whether one of the images has this content id.
fn is_taken(images: &Vec<InlineImage>, cid: &String) -> (taken: bool)
    ensures
        taken == image_cids(images@).contains(cid@),
{
    let mut j: usize = 0;
    while j < images.len()
        invariant
            j <= images.len(),
            forall|k: int| 0 <= k < j ==> image_cids(images@)[k] != cid@,
        decreases images.len() - j,
    {
        if images[j].cid == *cid {
            assert(image_cids(images@)[j as int] == cid@);
            return true;
        }
        j += 1;
    }
    false
}

/// A numbered id differs from every id that is a UUID or has a smaller
/// number.
proof fn lemma_numbered_id_is_new(ids: Seq<Seq<char>>, id: Seq<char>)
    requires
        are_content_ids(ids),
        is_numbered_uuid(id, ids.len()),
    ensures
        !ids.contains(id),
{
    let n = ids.len();
    lemma_written_number_reads_back(n);
    assert forall|j: int| 0 <= j < n implies ids[j] != id by {
        if is_uuid(ids[j]) {
            assert(id.len() > 36);
        } else {
            lemma_numbers_are_written_apart(j as nat, n);
            if ids[j] == id {
                assert(ids[j].skip(37) =~= decimal_text(j as nat));
                assert(id.skip(37) =~= decimal_text(n));
            }
        }
    }
}

/// Mints a content id for the image that comes after `images`: a random
/// UUID, with the image's number behind it should the UUID be taken.
fn mint_content_id(images: &Vec<InlineImage>) -> (cid: String)
    requires
        are_content_ids(image_cids(images@)),
    ensures
        is_content_id(cid@, images@.len()),
        !image_cids(images@).contains(cid@),
{
    let mut cid = fresh_uuid();
    if is_taken(images, &cid) {
        let ghost uuid = cid@;
        let number = zero_pad(images.len() as u64, 0);
        cid.push('-');
        cid.append(number.as_str());
        proof {
            assert(zero_padded(images@.len(), 0) =~= decimal_text(images@.len()));
            assert(cid@.take(36) =~= uuid);
            assert(cid@ =~= cid@.take(36) + seq!['-'] + decimal_text(images@.len()));
            assert(image_cids(images@).len() == images@.len());
            lemma_numbered_id_is_new(image_cids(images@), cid@);
        }
    }
    cid
}

/// Among ids that are distinct, each reference stands for one image only:
/// two local images are never named alike, and no remote image is named
/// like a local one.
pub proof fn lemma_references_are_distinct(dests: Seq<Seq<char>>, cids: Seq<Seq<char>>)
    requires
        are_distinct(cids),
        cids.len() == local_destinations(dests).len(),
    ensures
        forall|a: int, b: int|
            0 <= a < b < dests.len() && !is_remote(dests[b]) ==> #[trigger] rewritten(
                dests,
                cids,
            )[a] != #[trigger] rewritten(dests, cids)[b],
        forall|a: int, b: int|
            0 <= a < b < dests.len() && !is_remote(dests[a]) ==> #[trigger] rewritten(
                dests,
                cids,
            )[a] != #[trigger] rewritten(dests, cids)[b],
{
    reveal_strlit("cid:");
    reveal_strlit("http://");
    reveal_strlit("https://");
    assert forall|a: int, b: int|
        0 <= a < b < dests.len() && (!is_remote(dests[a]) || !is_remote(dests[b])) implies rewritten(
        dests,
        cids,
    )[a] != rewritten(dests, cids)[b] by {
        let out = rewritten(dests, cids);
        lemma_local_count_of_prefix(dests, a);
        lemma_local_count_of_prefix(dests, b);
        let ja = local_destinations(dests.take(a)).len() as int;
        let jb = local_destinations(dests.take(b)).len() as int;
        if !is_remote(dests[a]) && !is_remote(dests[b]) {
            lemma_local_count_grows(dests, a, b);
            assert(ja < jb);
            if out[a] == out[b] {
                assert(out[a].skip(4) =~= cids[ja]);
                assert(out[b].skip(4) =~= cids[jb]);
            }
        } else if !is_remote(dests[a]) {
            assert(out[a][0] == 'c');
            assert(out[b] == dests[b]);
            lemma_remote_begins_with_h(dests[b]);
        } else {
            assert(out[b][0] == 'c');
            assert(out[a] == dests[a]);
            lemma_remote_begins_with_h(dests[a]);
        }
    }
}

proof fn lemma_remote_begins_with_h(dest: Seq<char>)
    requires
        is_remote(dest),
    ensures
        dest.len() > 0,
        dest[0] == 'h',
{
    reveal_strlit("http://");
    reveal_strlit("https://");
    if "http://"@.is_prefix_of(dest) {
        assert("http://"@[0] == 'h');
        assert(dest.subrange(0, 7)[0] == dest[0]);
    } else {
        assert("https://"@[0] == 'h');
        assert(dest.subrange(0, 8)[0] == dest[0]);
    }
}

/// Of two places in a list, the later has more local destinations before
/// it if the earlier holds a local one.
proof fn lemma_local_count_grows(dests: Seq<Seq<char>>, a: int, b: int)
    requires
        0 <= a < b <= dests.len(),
        !is_remote(dests[a]),
    ensures
        local_destinations(dests.take(a)).len() < local_destinations(dests.take(b)).len(),
    decreases b - a,
{
    assert(dests.take(a + 1).drop_last() =~= dests.take(a));
    if b > a + 1 {
        lemma_local_count_grows_by_step(dests, a + 1, b);
    }
}

proof fn lemma_local_count_grows_by_step(dests: Seq<Seq<char>>, a: int, b: int)
    requires
        0 <= a <= b <= dests.len(),
    ensures
        local_destinations(dests.take(a)).len() <= local_destinations(dests.take(b)).len(),
    decreases b - a,
{
    if a < b {
        lemma_local_count_grows_by_step(dests, a, b - 1);
        assert(dests.take(b).drop_last() =~= dests.take(b - 1));
    }
}

/// Whether an image destination is remote.
pub fn is_remote_destination(dest: &str) -> (remote: bool)
    ensures
        remote == is_remote(dest@),
{
    starts_with(dest, "http://") || starts_with(dest, "https://")
}

/// The reference by which the HTML names the image with content id `cid`.
pub fn cid_reference(cid: &str) -> (reference: String)
    ensures
        reference@ == cid_reference_of(cid@),
{
    let mut reference = String::from_str("cid:");
    reference.append(cid);
    reference
}

proof fn lemma_image_destinations_step(events: Seq<MdEventView>, i: int)
    requires
        0 <= i < events.len(),
    ensures
        image_destinations(events.take(i + 1)) == match events[i] {
            MdEventView::ImageStart(dest) => image_destinations(events.take(i)).push(dest),
            _ => image_destinations(events.take(i)),
        },
{
    assert(events.take(i + 1).drop_last() =~= events.take(i));
}

proof fn lemma_local_destinations_step(dests: Seq<Seq<char>>, d: Seq<char>)
    ensures
        local_destinations(dests.push(d)) == if is_remote(d) {
            local_destinations(dests)
        } else {
            local_destinations(dests).push(d)
        },
{
    assert(dests.push(d).drop_last() =~= dests);
}

/// Among destinations that are all remote none is local, and embedding
/// changes none of them.
pub proof fn lemma_remote_only(dests: Seq<Seq<char>>, cids: Seq<Seq<char>>)
    requires
        forall|k: int| 0 <= k < dests.len() ==> is_remote(#[trigger] dests[k]),
    ensures
        local_destinations(dests).len() == 0,
        rewritten(dests, cids) == dests,
    decreases dests.len(),
{
    if dests.len() > 0 {
        lemma_remote_only(dests.drop_last(), cids);
    }
    assert(rewritten(dests, cids) =~= dests);
}

/// Renders the markdown to HTML and lists the local images it shows. Each
/// local image gets a fresh content id and is referred to by it in the
/// HTML; remote images stay as they are. The images come in the order in
/// which the markdown shows them, one entry for each showing.
pub fn parse_markdown_with_images(markdown_input: &str) -> (out: (String, Vec<InlineImage>))
    ensures
        ({
            let dests = image_destinations(markdown_events(markdown_input@, HTML_OPTIONS));
            &&& out.1@.len() == local_destinations(dests).len()
            &&& image_paths(out.1@) == local_destinations(dests)
            &&& are_content_ids(image_cids(out.1@))
            &&& are_distinct(image_cids(out.1@))
            &&& out.0@ == rendered_html(
                markdown_input@,
                HTML_OPTIONS,
                rewritten(dests, image_cids(out.1@)),
            )
            &&& (forall|k: int| 0 <= k < dests.len() ==> is_remote(#[trigger] dests[k])) ==> out.1@.len()
                == 0 && out.0@ == rendered_html(markdown_input@, HTML_OPTIONS, dests)
            &&& markdown_input@.len() == 0 ==> out.0@.len() == 0 && out.1@.len() == 0
        }),
{
    let events = parse_events(markdown_input, HTML_OPTIONS);
    let ghost views = event_views(events@);
    let mut destinations: Vec<String> = Vec::new();
    let mut images: Vec<InlineImage> = Vec::new();
    let mut i: usize = 0;
    proof {
        assert(views.take(0) =~= Seq::empty());
    }
    while i < events.len()
        invariant
            i <= events.len(),
            views == event_views(events@),
            destinations@.len() == image_destinations(views.take(i as int)).len(),
            images@.len() == local_destinations(image_destinations(views.take(i as int))).len(),
            image_paths(images@) == local_destinations(image_destinations(views.take(i as int))),
            are_content_ids(image_cids(images@)),
            are_distinct(image_cids(images@)),
            forall|k: int|
                0 <= k < destinations@.len() ==> #[trigger] destinations@[k]@ == rewritten(
                    image_destinations(views.take(i as int)),
                    image_cids(images@),
                )[k],
        decreases events.len() - i,
    {
        let ghost dests = image_destinations(views.take(i as int));
        let ghost old_images = images@;
        proof {
            lemma_image_destinations_step(views, i as int);
            assert(views[i as int] == events@[i as int]@);
        }
        match &events[i] {
            MdEvent::ImageStart(dest) => {
                proof {
                    lemma_local_destinations_step(dests, dest@);
                    assert(dests.push(dest@).take(dests.len() as int) =~= dests);
                }
                if is_remote_destination(dest.as_str()) {
                    destinations.push(dest.clone());
                } else {
                    let cid = mint_content_id(&images);
                    destinations.push(cid_reference(cid.as_str()));
                    images.push(InlineImage { cid, path: dest.clone() });
                    assert(image_paths(images@) =~= image_paths(old_images).push(dest@));
                    assert(image_cids(images@) =~= image_cids(old_images).push(cid@));
                }
                assert forall|k: int| 0 <= k < destinations@.len() implies #[trigger] destinations@[k]@
                    == rewritten(dests.push(dest@), image_cids(images@))[k] by {
                    if k < dests.len() {
                        assert(dests.push(dest@).take(k) =~= dests.take(k));
                        assert(rewritten(dests, image_cids(old_images))[k] == destinations@[k]@);
                        lemma_local_count_of_prefix(dests, k);
                    }
                }
            },
            _ => {},
        }
        i += 1;
    }
    proof {
        assert(views.take(events.len() as int) =~= views);
    }
    let html = render_html(markdown_input, HTML_OPTIONS, &destinations);
    proof {
        let dests = image_destinations(views);
        assert(texts(destinations@) =~= rewritten(dests, image_cids(images@)));
        if forall|k: int| 0 <= k < dests.len() ==> is_remote(#[trigger] dests[k]) {
            lemma_remote_only(dests, image_cids(images@));
        }
    }
    (html, images)
}

/// A prefix of a list has at most as many local destinations as the list,
/// and fewer where the destination after it is local.
proof fn lemma_local_count_of_prefix(dests: Seq<Seq<char>>, k: int)
    requires
        0 <= k < dests.len(),
    ensures
        local_destinations(dests.take(k)).len() <= local_destinations(dests).len(),
        !is_remote(dests[k]) ==> local_destinations(dests.take(k)).len() < local_destinations(
            dests,
        ).len(),
    decreases dests.len(),
{
    if k == dests.len() - 1 {
        assert(dests.take(k) =~= dests.drop_last());
    } else {
        lemma_local_count_of_prefix(dests.drop_last(), k);
        assert(dests.drop_last().take(k) =~= dests.take(k));
    }
}

/// Reduces the markdown to plain text: literal text and inline code, a
/// newline for each line break, a blank line after each paragraph and
/// after each list item. It reads the source by itself, without the HTML.
pub fn strip_markdown(markdown_input: &str) -> (plain: String)
    ensures
        plain@ == plain_text(markdown_events(markdown_input@, PLAIN_OPTIONS)),
        markdown_input@.len() == 0 ==> plain@.len() == 0,
{
    let events = parse_events(markdown_input, PLAIN_OPTIONS);
    let ghost views = event_views(events@);
    let mut plain = String::new();
    let mut i: usize = 0;
    proof {
        assert(views.take(0) =~= Seq::empty());
    }
    while i < events.len()
        invariant
            i <= events.len(),
            views == event_views(events@),
            plain@ == plain_text(views.take(i as int)),
        decreases events.len() - i,
    {
        proof {
            assert(views.take(i + 1).drop_last() =~= views.take(i as int));
            assert(views.take(i + 1).last() == events@[i as int]@);
        }
        let ghost before = plain@;
        match &events[i] {
            MdEvent::Text(text) => plain.append(text.as_str()),
            MdEvent::Code(code) => plain.append(code.as_str()),
            MdEvent::SoftBreak => plain.push('\n'),
            MdEvent::HardBreak => plain.push('\n'),
            MdEvent::ParagraphEnd => {
                plain.push('\n');
                plain.push('\n');
            },
            MdEvent::ItemEnd => {
                plain.push('\n');
                plain.push('\n');
            },
            _ => {},
        }
        assert(plain@ =~= before + plain_piece(events@[i as int]@));
        i += 1;
    }
    proof {
        assert(views.take(events.len() as int) =~= views);
    }
    plain
}

/// Compiles a markdown body: its HTML, its plain text and the local images
/// that the HTML refers to.
pub fn compile_body(markdown: &str) -> (out: (String, String, Vec<InlineImage>))
    ensures
        ({
            let dests = image_destinations(markdown_events(markdown@, HTML_OPTIONS));
            &&& out.2@.len() == local_destinations(dests).len()
            &&& image_paths(out.2@) == local_destinations(dests)
            &&& are_content_ids(image_cids(out.2@))
            &&& are_distinct(image_cids(out.2@))
            &&& out.0@ == rendered_html(markdown@, HTML_OPTIONS, rewritten(dests, image_cids(out.2@)))
            &&& (forall|k: int| 0 <= k < dests.len() ==> is_remote(#[trigger] dests[k])) ==> out.2@.len()
                == 0 && out.0@ == rendered_html(markdown@, HTML_OPTIONS, dests)
            &&& out.1@ == plain_text(markdown_events(markdown@, PLAIN_OPTIONS))
            &&& markdown@.len() == 0 ==> out.0@.len() == 0 && out.1@.len() == 0 && out.2@.len()
                == 0
        }),
{
    let (html, images) = parse_markdown_with_images(markdown);
    let plain = strip_markdown(markdown);
    (html, plain, images)
}

// ---------------------------------------------------------------------
// Footer
// ---------------------------------------------------------------------

/// The text between two addresses of the HTML footer.
pub const HTML_EMAIL_SEPARATOR: &'static str = " &bull; ";

/// The text between two addresses of the plain footer.
pub const PLAIN_EMAIL_SEPARATOR: &'static str = " | ";

/// One address of the HTML footer: a `mailto:` link in the accent colour.
pub open spec fn email_link(email: Seq<char>, color: Seq<char>) -> Seq<char> {
    "<a href=\"mailto:"@ + email + "\" style=\"color: "@ + color
        + "; text-decoration: none;\">"@ + email + "</a>"@
}

/// The links of all addresses, in order.
pub open spec fn email_links(emails: Seq<Seq<char>>, color: Seq<char>) -> Seq<Seq<char>> {
    emails.map_values(|email: Seq<char>| email_link(email, color))
}

/// The HTML footer of an identity.
pub open spec fn footer_html(id: IdentityView) -> Seq<char> {
    "\n    <div style=\"font-family: 'Segoe UI', Tahoma, Geneva, Verdana, sans-serif; border-left: 4px solid "@
        + id.footer_color
        + "; padding-left: 15px; margin-top: 25px; color: #4a4a4a;\">\n      \n      <h3 style=\"margin: 0; color: #2d3436; font-size: 19px; font-weight: 700; line-height: 1.2;\">"@
        + id.name + "</h3>\n      \n      <div style=\"margin-top: 4px; font-size: 13px; color: "@
        + id.footer_color
        + "; font-weight: 600; text-transform: uppercase; letter-spacing: 0.5px;\">"@ + id.role
        + "</div>\n      \n      <div style=\"margin-top: 2px; font-size: 12px; color: #7f8c8d;\">\n        "@
        + id.department + " &bull; "@ + id.institution
        + "\n      </div>\n\n      <div style=\"margin-top: 8px; font-size: 12px; color: #95a5a6; line-height: 1.4;\">\n        <span style=\"font-weight: 600;\">Tel:</span> "@
        + id.phone + "<br>\n        <span style=\"font-weight: 600;\">Email:</span> "@ + joined(
        email_links(id.emails, id.footer_color),
        HTML_EMAIL_SEPARATOR@,
    ) + "\n      </div>\n\n    </div>\n    "@
}

/// The plain-text footer of an identity.
pub open spec fn footer_plain(id: IdentityView) -> Seq<char> {
    id.name + "\n"@ + id.role + "\n"@ + id.department + " - "@ + id.institution + "\n\nPhone: "@
        + id.phone + "\nEmail: "@ + joined(id.emails, PLAIN_EMAIL_SEPARATOR@)
}

/// Renders the HTML footer of `identity`: name, role, department and
/// institution, phone, and each address as a `mailto:` link.
pub fn generate_footer(identity: &UserIdentity) -> (footer: String)
    ensures
        footer@ == footer_html(identity@),
{
    let color = identity.footer_color.as_str();
    let mut links: Vec<String> = Vec::new();
    let mut i: usize = 0;
    while i < identity.emails.len()
        invariant
            i <= identity.emails.len(),
            color@ == identity.footer_color@,
            links@.len() == i,
            texts(links@) == email_links(texts(identity.emails@).take(i as int), color@),
        decreases identity.emails.len() - i,
    {
        let email = identity.emails[i].as_str();
        let mut link = String::from_str("<a href=\"mailto:");
        link.append(email);
        link.append("\" style=\"color: ");
        link.append(color);
        link.append("; text-decoration: none;\">");
        link.append(email);
        link.append("</a>");
        let ghost before = links@;
        let ghost emails = texts(identity.emails@);
        assert(link@ == email_link(emails[i as int], color@));
        links.push(link);
        assert forall|k: int| 0 <= k < i + 1 implies #[trigger] texts(links@)[k] == email_links(
            emails.take(i + 1),
            color@,
        )[k] by {
            if k < i {
                assert(texts(before)[k] == email_links(emails.take(i as int), color@)[k]);
            }
        }
        assert(texts(links@) =~= email_links(emails.take(i + 1), color@));
        i += 1;
    }
    assert(texts(identity.emails@).take(identity.emails.len() as int) =~= texts(
        identity.emails@,
    ));
    let emails_html = join(&links, HTML_EMAIL_SEPARATOR);

    let mut out = String::from_str(
        "\n    <div style=\"font-family: 'Segoe UI', Tahoma, Geneva, Verdana, sans-serif; border-left: 4px solid ",
    );
    out.append(color);
    out.append(
        "; padding-left: 15px; margin-top: 25px; color: #4a4a4a;\">\n      \n      <h3 style=\"margin: 0; color: #2d3436; font-size: 19px; font-weight: 700; line-height: 1.2;\">",
    );
    out.append(identity.name.as_str());
    out.append(
        "</h3>\n      \n      <div style=\"margin-top: 4px; font-size: 13px; color: ",
    );
    out.append(color);
    out.append("; font-weight: 600; text-transform: uppercase; letter-spacing: 0.5px;\">");
    out.append(identity.role.as_str());
    out.append(
        "</div>\n      \n      <div style=\"margin-top: 2px; font-size: 12px; color: #7f8c8d;\">\n        ",
    );
    out.append(identity.department.as_str());
    out.append(" &bull; ");
    out.append(identity.institution.as_str());
    out.append(
        "\n      </div>\n\n      <div style=\"margin-top: 8px; font-size: 12px; color: #95a5a6; line-height: 1.4;\">\n        <span style=\"font-weight: 600;\">Tel:</span> ",
    );
    out.append(identity.phone.as_str());
    out.append("<br>\n        <span style=\"font-weight: 600;\">Email:</span> ");
    out.append(emails_html.as_str());
    out.append("\n      </div>\n\n    </div>\n    ");
    out
}

/// Renders the plain-text footer of `identity`, the addresses joined by
/// `" | "`.
pub fn generate_plain_footer(identity: &UserIdentity) -> (footer: String)
    ensures
        footer@ == footer_plain(identity@),
{
    let emails = join(&identity.emails, PLAIN_EMAIL_SEPARATOR);
    let mut out = identity.name.clone();
    out.append("\n");
    out.append(identity.role.as_str());
    out.append("\n");
    out.append(identity.department.as_str());
    out.append(" - ");
    out.append(identity.institution.as_str());
    out.append("\n\nPhone: ");
    out.append(identity.phone.as_str());
    out.append("\nEmail: ");
    out.append(emails.as_str());
    out
}

// ---------------------------------------------------------------------
// Document
// ---------------------------------------------------------------------

/// The HTML document around a body: a small stylesheet whose links take
/// the accent colour, the body, the footer and, last, the beacon.
pub open spec fn html_document(
    color: Seq<char>,
    body: Seq<char>,
    footer: Seq<char>,
    tracker: Seq<char>,
) -> Seq<char> {
    "<!DOCTYPE html><html><head><style>body { font-family: Arial, sans-serif; color: #333; line-height: 1.6; } a { color: "@
        + color
        + "; text-decoration: none; } img { max-width: 100%; }</style></head><body><div style=\"margin-bottom: 20px;\">"@
        + body + "</div><br>"@ + footer + tracker + "</body></html>"@
}

/// The plain-text document: the body, a separator line and the footer.
/// It carries no beacon.
pub open spec fn plain_document(body: Seq<char>, footer: Seq<char>) -> Seq<char> {
    body + "\n\n--\n"@ + footer
}

/// Compiles a draft for transport. The HTML body is the rendered
/// markdown inside the document wrapper, followed by the sender's footer
/// and the beacon for the draft's recipient; the plain body is the plain
/// text, a separator and the plain footer. The attachments are those of
/// the draft. Nothing is read from disk.
pub fn compile(draft: &EmailDraft, identity: &UserIdentity, worker_url: &str) -> (compiled:
    CompiledEmail)
    ensures
        ({
            let dests = image_destinations(markdown_events(draft.body@, HTML_OPTIONS));
            let cids = image_cids(compiled.inline_images@);
            &&& compiled.inline_images@.len() == local_destinations(dests).len()
            &&& image_paths(compiled.inline_images@) == local_destinations(dests)
            &&& are_content_ids(cids)
            &&& are_distinct(cids)
            &&& compiled.html_body@ == html_document(
                identity.footer_color@,
                rendered_html(draft.body@, HTML_OPTIONS, rewritten(dests, cids)),
                footer_html(identity@),
                beacon(worker_url@, token_of(draft.recipient@)),
            )
            &&& compiled.plain_body@ == plain_document(
                plain_text(markdown_events(draft.body@, PLAIN_OPTIONS)),
                footer_plain(identity@),
            )
            &&& texts(compiled.attachments@) == texts(draft.attachments@)
        }),
{
    let (html_content, inline_images) = parse_markdown_with_images(draft.body.as_str());
    let plain_body = strip_markdown(draft.body.as_str());
    let plain_footer = generate_plain_footer(identity);
    let footer = generate_footer(identity);
    let tracker = generate_tracker(worker_url, draft.recipient.as_str());

    let mut full_html = String::from_str(
        "<!DOCTYPE html><html><head><style>body { font-family: Arial, sans-serif; color: #333; line-height: 1.6; } a { color: ",
    );
    full_html.append(identity.footer_color.as_str());
    full_html.append(
        "; text-decoration: none; } img { max-width: 100%; }</style></head><body><div style=\"margin-bottom: 20px;\">",
    );
    full_html.append(html_content.as_str());
    full_html.append("</div><br>");
    full_html.append(footer.as_str());
    full_html.append(tracker.as_str());
    full_html.append("</body></html>");

    let mut full_plain = plain_body;
    full_plain.append("\n\n--\n");
    full_plain.append(plain_footer.as_str());

    CompiledEmail {
        html_body: full_html,
        plain_body: full_plain,
        inline_images,
        attachments: copy_texts(&draft.attachments),
    }
}

/// An identity without addresses has a footer whose address line is
/// empty: nothing stands between `Email: ` and what follows it.
pub proof fn lemma_footer_without_emails(id: IdentityView)
    requires
        id.emails.len() == 0,
    ensures
        joined(id.emails, PLAIN_EMAIL_SEPARATOR@).len() == 0,
        joined(email_links(id.emails, id.footer_color), HTML_EMAIL_SEPARATOR@).len() == 0,
        footer_plain(id) == id.name + "\n"@ + id.role + "\n"@ + id.department + " - "@
            + id.institution + "\n\nPhone: "@ + id.phone + "\nEmail: "@,
{
    let head = id.name + "\n"@ + id.role + "\n"@ + id.department + " - "@ + id.institution
        + "\n\nPhone: "@ + id.phone + "\nEmail: "@;
    assert(head + Seq::<char>::empty() =~= head);
}

} // verus!
