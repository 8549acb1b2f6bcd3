//! Assembles a compiled draft into the multipart tree of a message:
//! `mixed` around `related` around `alternative`.
//!
//! The alternative part holds the plain body and then the HTML body; the
//! related part adds one leaf for each inline image; the mixed part adds
//! one leaf for each attachment. A file that could not be read is left
//! out, and the rest of the message is built as if it had not been named.

use vstd::prelude::*;
use vstd::string::*;
use crate::compiler::{image_cids, image_paths, CompiledEmail, InlineImage};
use crate::files::{content_views, describe_files, file_views, files_hold, FileView, LoadedFile};
use crate::models::UserIdentity;
use crate::text::texts;

verus! {

/// How the parts of a multipart relate to each other.
#[derive(Debug, Clone, Copy, PartialEq, Eq, Structural)]
pub enum MultiKind {
    /// The same content in several forms; a reader shows the last it can.
    Alternative,
    /// A root part and the resources it refers to.
    Related,
    /// Independent parts.
    Mixed,
}

/// Where a leaf is meant to be shown, and under which file name.
#[derive(Debug)]
pub enum Disposition {
    Unset,
    Inline(String),
    Attachment(String),
}

/// The payload of a leaf.
#[derive(Debug)]
pub enum Body {
    Text(String),
    Binary(Vec<u8>),
}

/// A part that holds content. A content id is written with its angle
/// brackets.
#[derive(Debug)]
pub struct Leaf {
    pub content_type: String,
    pub content_id: Option<String>,
    pub disposition: Disposition,
    pub body: Body,
}

/// A node of the message body.
#[derive(Debug)]
pub enum Part {
    Single(Leaf),
    Multi(MultiKind, Vec<Part>),
}

/// A message ready for transport.
#[derive(Debug)]
pub struct MessageTree {
    pub from: String,
    pub to: String,
    pub subject: String,
    pub root: Part,
}

/// Why a message was not assembled.
#[derive(Debug, Clone, Copy, PartialEq, Eq, Structural)]
pub enum AssembleError {
    /// The sender header is no mail address.
    InvalidSender,
    /// The recipient is no mail address.
    InvalidRecipient,
}

/// A disposition as character sequences.
pub enum DispositionView {
    Unset,
    Inline(Seq<char>),
    Attachment(Seq<char>),
}

/// A body as sequences.
pub enum BodyView {
    Text(Seq<char>),
    Binary(Seq<u8>),
}

/// A leaf as sequences.
pub struct LeafView {
    pub content_type: Seq<char>,
    pub content_id: Option<Seq<char>>,
    pub disposition: DispositionView,
    pub body: BodyView,
}

/// A node as sequences.
pub enum PartView {
    Single(LeafView),
    Multi(MultiKind, Seq<PartView>),
}

/// A message as sequences.
pub struct MessageView {
    pub from: Seq<char>,
    pub to: Seq<char>,
    pub subject: Seq<char>,
    pub root: PartView,
}

impl View for Disposition {
    type V = DispositionView;

    open spec fn view(&self) -> DispositionView {
        match self {
            Disposition::Unset => DispositionView::Unset,
            Disposition::Inline(name) => DispositionView::Inline(name@),
            Disposition::Attachment(name) => DispositionView::Attachment(name@),
        }
    }
}

impl View for Body {
    type V = BodyView;

    open spec fn view(&self) -> BodyView {
        match self {
            Body::Text(text) => BodyView::Text(text@),
            Body::Binary(bytes) => BodyView::Binary(bytes@),
        }
    }
}

impl View for Leaf {
    type V = LeafView;

    open spec fn view(&self) -> LeafView {
        LeafView {
            content_type: self.content_type@,
            content_id: match self.content_id {
                Some(id) => Some(id@),
                None => None,
            },
            disposition: self.disposition@,
            body: self.body@,
        }
    }
}

impl View for Part {
    type V = PartView;

    open spec fn view(&self) -> PartView
        decreases self,
    {
        match self {
            Part::Single(leaf) => PartView::Single(leaf@),
            Part::Multi(kind, children) => PartView::Multi(*kind, part_views(children@)),
        }
    }
}

/// The views of a list of parts.
pub open spec fn part_views(parts: Seq<Part>) -> Seq<PartView>
    decreases parts,
{
    if parts.len() == 0 {
        Seq::empty()
    } else {
        part_views(parts.drop_last()).push(parts.last()@)
    }
}

impl View for MessageTree {
    type V = MessageView;

    open spec fn view(&self) -> MessageView {
        MessageView { from: self.from@, to: self.to@, subject: self.subject@, root: self.root@ }
    }
}

impl AssembleError {
    /// The error as a sentence.
    pub fn message(&self) -> (text: String)
        ensures
            text@ == match self {
                AssembleError::InvalidSender => "Invalid sender format (Name <email>)"@,
                AssembleError::InvalidRecipient => "Invalid recipient email"@,
            },
    {
        match self {
            AssembleError::InvalidSender => String::from_str("Invalid sender format (Name <email>)"),
            AssembleError::InvalidRecipient => String::from_str("Invalid recipient email"),
        }
    }
}

// ---------------------------------------------------------------------
// What the tree is
// ---------------------------------------------------------------------

/// The content type of the plain body.
pub const TEXT_PLAIN: &'static str = "text/plain; charset=utf-8";

/// The content type of the HTML body.
pub const TEXT_HTML: &'static str = "text/html; charset=utf-8";

/// The file name of an inline image whose path has none.
pub const DEFAULT_IMAGE_NAME: &'static str = "image.png";

/// The `From` header: the bare address, or the quoted name followed by
/// the address in angle brackets where there is a name.
pub open spec fn sender_header_of(name: Seq<char>, address: Seq<char>) -> Seq<char> {
    if name.len() == 0 {
        address
    } else {
        "\""@ + name + "\" <"@ + address + ">"@
    }
}

/// A leaf that holds text of the given type.
pub open spec fn text_leaf_of(content_type: Seq<char>, text: Seq<char>) -> PartView {
    PartView::Single(
        LeafView {
            content_type,
            content_id: None,
            disposition: DispositionView::Unset,
            body: BodyView::Text(text),
        },
    )
}

/// The alternative part: the plain body, then the HTML body.
pub open spec fn alternative_of(plain: Seq<char>, html: Seq<char>) -> PartView {
    PartView::Multi(
        MultiKind::Alternative,
        seq![text_leaf_of(TEXT_PLAIN@, plain), text_leaf_of(TEXT_HTML@, html)],
    )
}

/// The leaf of an inline image whose file was read.
pub open spec fn inline_leaf_of(cid: Seq<char>, file: FileView) -> PartView {
    PartView::Single(
        LeafView {
            content_type: file.content_type,
            content_id: Some("<"@ + cid + ">"@),
            disposition: DispositionView::Inline(
                match file.file_name {
                    Some(name) => name,
                    None => DEFAULT_IMAGE_NAME@,
                },
            ),
            body: BodyView::Binary(file.contents->0),
        },
    )
}

/// The leaf of an attachment whose file was read.
pub open spec fn attachment_leaf_of(file: FileView) -> PartView {
    PartView::Single(
        LeafView {
            content_type: file.content_type,
            content_id: None,
            disposition: DispositionView::Attachment(
                match file.file_name {
                    Some(name) => name,
                    None => Seq::empty(),
                },
            ),
            body: BodyView::Binary(file.contents->0),
        },
    )
}

/// The leaves of the inline images: the i-th file belongs to the i-th
/// content id, and gives a leaf if it was read. A content id without a
/// file gives none.
pub open spec fn inline_leaves(cids: Seq<Seq<char>>, files: Seq<FileView>) -> Seq<PartView>
    decreases files.len(),
{
    if files.len() == 0 {
        Seq::empty()
    } else {
        let before = inline_leaves(cids, files.drop_last());
        let k = files.len() - 1;
        if k < cids.len() && files.last().contents is Some {
            before.push(inline_leaf_of(cids[k], files.last()))
        } else {
            before
        }
    }
}

/// The leaves of the attachments: one for each file that was read.
pub open spec fn attachment_leaves(files: Seq<FileView>) -> Seq<PartView>
    decreases files.len(),
{
    if files.len() == 0 {
        Seq::empty()
    } else {
        let before = attachment_leaves(files.drop_last());
        if files.last().contents is Some {
            before.push(attachment_leaf_of(files.last()))
        } else {
            before
        }
    }
}

/// The body of a message: mixed around related around alternative.
pub open spec fn tree_of(
    plain: Seq<char>,
    html: Seq<char>,
    cids: Seq<Seq<char>>,
    inline_files: Seq<FileView>,
    attachment_files: Seq<FileView>,
) -> PartView {
    PartView::Multi(
        MultiKind::Mixed,
        seq![
            PartView::Multi(
                MultiKind::Related,
                seq![alternative_of(plain, html)] + inline_leaves(cids, inline_files),
            ),
        ] + attachment_leaves(attachment_files),
    )
}

/// The alternative parts of a tree, in the order in which a reader meets
/// them.
pub open spec fn alternatives(part: PartView) -> Seq<PartView>
    decreases part,
{
    match part {
        PartView::Single(_) => Seq::empty(),
        PartView::Multi(kind, children) => if kind == MultiKind::Alternative {
            seq![part] + alternatives_in(children)
        } else {
            alternatives_in(children)
        },
    }
}

/// The alternative parts of a list of trees.
pub open spec fn alternatives_in(parts: Seq<PartView>) -> Seq<PartView>
    decreases parts,
{
    if parts.len() == 0 {
        Seq::empty()
    } else {
        alternatives_in(parts.drop_last()) + alternatives(parts.last())
    }
}

/// Whether every part of the list is a leaf.
pub open spec fn all_leaves(parts: Seq<PartView>) -> bool {
    forall|i: int| 0 <= i < parts.len() ==> #[trigger] parts[i] is Single
}

// ---------------------------------------------------------------------
// Building it
// ---------------------------------------------------------------------

/// Whether `text` is a mailbox: an address, or a display name followed by
/// an address in angle brackets.
pub uninterp spec fn mailbox_syntax_ok(text: Seq<char>) -> bool;

/// Parses `text` as a `lettre::message::Mailbox` and says whether that
/// succeeded. Not proved: that the answer is a function of the text.
#[verifier::external_body]
fn is_mailbox(text: &str) -> (ok: bool)
    ensures
        ok == mailbox_syntax_ok(text@),
{
    text.parse::<lettre::message::Mailbox>().is_ok()
}

/// Renders the `From` header of a sender.
pub fn sender_header(name: &str, address: &str) -> (header: String)
    ensures
        header@ == sender_header_of(name@, address@),
{
    if name.is_empty() {
        address.to_owned()
    } else {
        let mut header = String::from_str("\"");
        header.append(name);
        header.append("\" <");
        header.append(address);
        header.append(">");
        header
    }
}

/// A leaf that holds text of the given type.
pub fn text_leaf(content_type: &str, text: String) -> (part: Part)
    ensures
        part@ == text_leaf_of(content_type@, text@),
{
    Part::Single(
        Leaf {
            content_type: content_type.to_owned(),
            content_id: None,
            disposition: Disposition::Unset,
            body: Body::Text(text),
        },
    )
}

/// The leaf of an inline image, or `None` if its file was not read. The
/// leaf carries the content id in angle brackets and is shown inline,
/// under the file's name or, for want of one, as `image.png`.
pub fn inline_leaf(cid: &str, file: LoadedFile) -> (part: Option<Part>)
    ensures
        match part {
            Some(part) => file@.contents is Some && part@ == inline_leaf_of(cid@, file@),
            None => file@.contents is None,
        },
{
    match file.contents {
        Some(bytes) => {
            let name = match file.file_name {
                Some(name) => name,
                None => String::from_str(DEFAULT_IMAGE_NAME),
            };
            let mut content_id = String::from_str("<");
            content_id.append(cid);
            content_id.append(">");
            Some(
                Part::Single(
                    Leaf {
                        content_type: file.content_type,
                        content_id: Some(content_id),
                        disposition: Disposition::Inline(name),
                        body: Body::Binary(bytes),
                    },
                ),
            )
        },
        None => None,
    }
}

/// The leaf of an attachment, or `None` if its file was not read. The
/// leaf is offered for download under the file's name, which is empty
/// where the path has none.
pub fn attachment_leaf(file: LoadedFile) -> (part: Option<Part>)
    ensures
        match part {
            Some(part) => file@.contents is Some && part@ == attachment_leaf_of(file@),
            None => file@.contents is None,
        },
{
    match file.contents {
        Some(bytes) => {
            let name = match file.file_name {
                Some(name) => name,
                None => String::new(),
            };
            Some(
                Part::Single(
                    Leaf {
                        content_type: file.content_type,
                        content_id: None,
                        disposition: Disposition::Attachment(name),
                        body: Body::Binary(bytes),
                    },
                ),
            )
        },
        None => None,
    }
}

proof fn lemma_part_views_push(parts: Seq<Part>, part: Part)
    ensures
        part_views(parts.push(part)) == part_views(parts).push(part@),
{
    assert(parts.push(part).drop_last() =~= parts);
}

proof fn lemma_part_views_empty()
    ensures
        part_views(Seq::<Part>::empty()) == Seq::<PartView>::empty(),
{
}

/// Builds the body of a message from the two renderings of its text, its
/// inline images with their files, and the files attached to it.
pub fn build_tree(
    plain_body: String,
    html_body: String,
    inline_images: &Vec<InlineImage>,
    inline_files: Vec<LoadedFile>,
    attachment_files: Vec<LoadedFile>,
) -> (root: Part)
    ensures
        root@ == tree_of(
            plain_body@,
            html_body@,
            image_cids(inline_images@),
            file_views(inline_files@),
            file_views(attachment_files@),
        ),
{
    let ghost cids = image_cids(inline_images@);
    let ghost alternative = alternative_of(plain_body@, html_body@);
    let mut leaves: Vec<Part> = Vec::new();
    let plain_leaf = text_leaf(TEXT_PLAIN, plain_body);
    let html_leaf = text_leaf(TEXT_HTML, html_body);
    proof {
        lemma_part_views_empty();
        lemma_part_views_push(Seq::empty(), plain_leaf);
        lemma_part_views_push(Seq::empty().push(plain_leaf), html_leaf);
    }
    leaves.push(plain_leaf);
    leaves.push(html_leaf);
    assert(part_views(leaves@) =~= seq![
        text_leaf_of(TEXT_PLAIN@, plain_body@),
        text_leaf_of(TEXT_HTML@, html_body@),
    ]);
    let alternative_part = Part::Multi(MultiKind::Alternative, leaves);
    assert(alternative_part@ == alternative);
    let mut related: Vec<Part> = Vec::new();
    proof {
        lemma_part_views_push(Seq::empty(), alternative_part);
    }
    related.push(alternative_part);
    proof {
        assert(part_views(related@) =~= seq![alternative]);
        assert(seq![alternative] + Seq::<PartView>::empty() =~= seq![alternative]);
        assert(file_views(inline_files@).take(0) =~= Seq::<FileView>::empty());
    }

    let ghost files = file_views(inline_files@);
    let total = inline_files.len();
    let mut k: usize = 0;
    for file in it: inline_files
        invariant
            k == it.index(),
            it.seq().len() == total,
            files == file_views(it.seq()),
            cids == image_cids(inline_images@),
            part_views(related@) == seq![alternative] + inline_leaves(cids, files.take(k as int)),
    {
        proof {
            assert(files.take(k + 1).drop_last() =~= files.take(k as int));
            assert(files.take(k + 1).last() == file@);
        }
        if k < inline_images.len() {
            let ghost before = related@;
            match inline_leaf(inline_images[k].cid.as_str(), file) {
                Some(leaf) => {
                    related.push(leaf);
                    proof {
                        lemma_part_views_push(before, leaf);
                        assert(part_views(related@) =~= seq![alternative] + inline_leaves(
                            cids,
                            files.take(k + 1),
                        ));
                    }
                },
                None => {},
            }
        }
        k += 1;
    }
    proof {
        assert(files.take(k as int) =~= files);
    }

    let related_part = Part::Multi(MultiKind::Related, related);
    let ghost related_view = related_part@;
    let mut mixed: Vec<Part> = Vec::new();
    proof {
        lemma_part_views_push(Seq::empty(), related_part);
    }
    mixed.push(related_part);
    proof {
        assert(part_views(mixed@) =~= seq![related_view]);
        assert(seq![related_view] + Seq::<PartView>::empty() =~= seq![related_view]);
        assert(file_views(attachment_files@).take(0) =~= Seq::<FileView>::empty());
    }
    let ghost attached = file_views(attachment_files@);
    let ghost mut n: int = 0;
    for file in it: attachment_files
        invariant
            n == it.index(),
            attached == file_views(it.seq()),
            part_views(mixed@) == seq![related_view] + attachment_leaves(attached.take(n)),
    {
        proof {
            assert(attached.take(n + 1).drop_last() =~= attached.take(n));
            assert(attached.take(n + 1).last() == file@);
        }
        let ghost before = mixed@;
        match attachment_leaf(file) {
            Some(leaf) => {
                mixed.push(leaf);
                proof {
                    lemma_part_views_push(before, leaf);
                    assert(part_views(mixed@) =~= seq![related_view] + attachment_leaves(
                        attached.take(n + 1),
                    ));
                }
            },
            None => {},
        }
        proof {
            n = n + 1;
        }
    }
    proof {
        assert(attached.take(n) =~= attached);
    }
    Part::Multi(MultiKind::Mixed, mixed)
}

/// Puts a message together once both addresses have been checked. The
/// sender is looked at first: a message whose sender is refused is
/// reported as such whatever the recipient is.
pub fn assemble_checked(
    sender_ok: bool,
    recipient_ok: bool,
    from: String,
    to: String,
    subject: String,
    compiled: CompiledEmail,
    inline_files: Vec<LoadedFile>,
    attachment_files: Vec<LoadedFile>,
) -> (result: Result<MessageTree, AssembleError>)
    ensures
        !sender_ok ==> result == Err::<MessageTree, AssembleError>(AssembleError::InvalidSender),
        sender_ok && !recipient_ok ==> result == Err::<MessageTree, AssembleError>(
            AssembleError::InvalidRecipient,
        ),
        sender_ok && recipient_ok ==> result is Ok && result->Ok_0@ == (MessageView {
            from: from@,
            to: to@,
            subject: subject@,
            root: tree_of(
                compiled.plain_body@,
                compiled.html_body@,
                image_cids(compiled.inline_images@),
                file_views(inline_files@),
                file_views(attachment_files@),
            ),
        }),
{
    if !sender_ok {
        return Err(AssembleError::InvalidSender);
    }
    if !recipient_ok {
        return Err(AssembleError::InvalidRecipient);
    }
    let root = build_tree(
        compiled.plain_body,
        compiled.html_body,
        &compiled.inline_images,
        inline_files,
        attachment_files,
    );
    Ok(MessageTree { from, to, subject, root })
}

/// The source paths of the images, in order.
pub fn image_path_list(images: &Vec<InlineImage>) -> (paths: Vec<String>)
    ensures
        texts(paths@) == image_paths(images@),
{
    let mut paths: Vec<String> = Vec::new();
    let mut i: usize = 0;
    while i < images.len()
        invariant
            i <= images.len(),
            paths@.len() == i,
            forall|j: int| 0 <= j < i ==> #[trigger] paths@[j]@ == images@[j].path@,
        decreases images.len() - i,
    {
        paths.push(images[i].path.clone());
        i += 1;
    }
    assert(texts(paths@) =~= image_paths(images@));
    paths
}

/// Assembles the message for a compiled draft. `inline_contents[i]` holds
/// the bytes of the i-th inline image and `attachment_contents[i]` those
/// of the i-th attachment, `None` where the file could not be read.
///
/// The message is refused if the sender header or the recipient is no
/// mail address, and for no other reason: a file that could not be read
/// only leaves its own leaf out. File names and content types are found
/// from the paths: the content type of a leaf is the one guessed for the
/// extension of its path, and the generic binary type where there is no
/// extension or none that is known.
pub fn assemble(
    compiled: CompiledEmail,
    identity: &UserIdentity,
    sender_address: &str,
    recipient_address: &str,
    subject: &str,
    inline_contents: Vec<Option<Vec<u8>>>,
    attachment_contents: Vec<Option<Vec<u8>>>,
) -> (result: Result<MessageTree, AssembleError>)
    ensures
        ({
            let header = sender_header_of(identity.name@, sender_address@);
            let sender_ok = mailbox_syntax_ok(header);
            let recipient_ok = mailbox_syntax_ok(recipient_address@);
            &&& !sender_ok ==> result == Err::<MessageTree, AssembleError>(
                AssembleError::InvalidSender,
            )
            &&& sender_ok && !recipient_ok ==> result == Err::<MessageTree, AssembleError>(
                AssembleError::InvalidRecipient,
            )
            &&& sender_ok && recipient_ok ==> result is Ok && exists|
                inline_files: Seq<FileView>,
                attachment_files: Seq<FileView>,
            |
                {
                    &&& files_hold(
                        inline_files,
                        image_paths(compiled.inline_images@),
                        content_views(inline_contents@),
                    )
                    &&& files_hold(
                        attachment_files,
                        texts(compiled.attachments@),
                        content_views(attachment_contents@),
                    )
                    &&& result->Ok_0@ == (MessageView {
                        from: header,
                        to: recipient_address@,
                        subject: subject@,
                        root: #[trigger] tree_of(
                            compiled.plain_body@,
                            compiled.html_body@,
                            image_cids(compiled.inline_images@),
                            inline_files,
                            attachment_files,
                        ),
                    })
                }
        }),
{
    let from = sender_header(identity.name.as_str(), sender_address);
    let sender_ok = is_mailbox(from.as_str());
    let recipient_ok = is_mailbox(recipient_address);
    let paths = image_path_list(&compiled.inline_images);
    let inline_files = describe_files(&paths, inline_contents);
    let attachment_files = describe_files(&compiled.attachments, attachment_contents);
    assemble_checked(
        sender_ok,
        recipient_ok,
        from,
        recipient_address.to_owned(),
        subject.to_owned(),
        compiled,
        inline_files,
        attachment_files,
    )
}

// ---------------------------------------------------------------------
// What holds of every tree
// ---------------------------------------------------------------------

proof fn lemma_leaves_hold_no_alternative(parts: Seq<PartView>)
    requires
        all_leaves(parts),
    ensures
        alternatives_in(parts) == Seq::<PartView>::empty(),
    decreases parts.len(),
{
    if parts.len() > 0 {
        assert(parts.last() is Single);
        lemma_leaves_hold_no_alternative(parts.drop_last());
        assert(alternatives_in(parts.drop_last()) + alternatives(parts.last())
            =~= Seq::<PartView>::empty());
    }
}

proof fn lemma_alternatives_of_one(part: PartView)
    ensures
        alternatives_in(seq![part]) == alternatives(part),
{
    assert(seq![part].drop_last() =~= Seq::<PartView>::empty());
    assert(alternatives_in(Seq::<PartView>::empty()) =~= Seq::<PartView>::empty());
    assert(alternatives_in(seq![part]) =~= alternatives(part));
}

proof fn lemma_alternatives_concat(first: Seq<PartView>, second: Seq<PartView>)
    ensures
        alternatives_in(first + second) == alternatives_in(first) + alternatives_in(second),
    decreases second.len(),
{
    if second.len() == 0 {
        assert(first + second =~= first);
        assert(alternatives_in(first) + alternatives_in(second) =~= alternatives_in(first));
    } else {
        assert((first + second).drop_last() =~= first + second.drop_last());
        assert((first + second).last() == second.last());
        lemma_alternatives_concat(first, second.drop_last());
        assert(alternatives_in(first + second) =~= alternatives_in(first) + alternatives_in(
            second,
        ));
    }
}

proof fn lemma_inline_leaves_are_leaves(cids: Seq<Seq<char>>, files: Seq<FileView>)
    ensures
        all_leaves(inline_leaves(cids, files)),
        inline_leaves(cids, files).len() <= files.len(),
    decreases files.len(),
{
    if files.len() > 0 {
        lemma_inline_leaves_are_leaves(cids, files.drop_last());
    }
}

proof fn lemma_attachment_leaves_are_leaves(files: Seq<FileView>)
    ensures
        all_leaves(attachment_leaves(files)),
        attachment_leaves(files).len() <= files.len(),
    decreases files.len(),
{
    if files.len() > 0 {
        lemma_attachment_leaves_are_leaves(files.drop_last());
    }
}

/// Every assembled tree holds exactly one alternative part, and that part
/// holds exactly two leaves: the plain body and then the HTML body,
/// however many inline images and attachments there are.
pub proof fn lemma_one_alternative(
    plain: Seq<char>,
    html: Seq<char>,
    cids: Seq<Seq<char>>,
    inline_files: Seq<FileView>,
    attachment_files: Seq<FileView>,
)
    ensures
        alternatives(tree_of(plain, html, cids, inline_files, attachment_files)) == seq![
            PartView::Multi(
                MultiKind::Alternative,
                seq![text_leaf_of(TEXT_PLAIN@, plain), text_leaf_of(TEXT_HTML@, html)],
            ),
        ],
{
    let alternative = alternative_of(plain, html);
    let texts = seq![text_leaf_of(TEXT_PLAIN@, plain), text_leaf_of(TEXT_HTML@, html)];
    let inline = inline_leaves(cids, inline_files);
    let attached = attachment_leaves(attachment_files);
    let related = PartView::Multi(MultiKind::Related, seq![alternative] + inline);

    lemma_inline_leaves_are_leaves(cids, inline_files);
    lemma_attachment_leaves_are_leaves(attachment_files);
    lemma_leaves_hold_no_alternative(texts);
    lemma_leaves_hold_no_alternative(inline);
    lemma_leaves_hold_no_alternative(attached);

    assert(alternatives(alternative) =~= seq![alternative]);
    lemma_alternatives_of_one(alternative);
    lemma_alternatives_concat(seq![alternative], inline);
    assert(alternatives(related) =~= seq![alternative]);

    lemma_alternatives_of_one(related);
    lemma_alternatives_concat(seq![related], attached);
    assert(alternatives(tree_of(plain, html, cids, inline_files, attachment_files))
        =~= seq![alternative]);
}

proof fn lemma_inline_leaves_ignore_later_ids(
    first: Seq<Seq<char>>,
    second: Seq<Seq<char>>,
    files: Seq<FileView>,
)
    requires
        files.len() <= first.len(),
        files.len() <= second.len(),
        forall|k: int| 0 <= k < files.len() ==> first[k] == second[k],
    ensures
        inline_leaves(first, files) == inline_leaves(second, files),
    decreases files.len(),
{
    if files.len() > 0 {
        lemma_inline_leaves_ignore_later_ids(first, second, files.drop_last());
    }
}

/// An inline image whose file was not read leaves no trace in the tree:
/// the leaves are those of the message without that image.
pub proof fn lemma_unread_image_is_omitted(cids: Seq<Seq<char>>, files: Seq<FileView>, i: int)
    requires
        cids.len() == files.len(),
        0 <= i < files.len(),
        files[i].contents is None,
    ensures
        inline_leaves(cids, files) == inline_leaves(cids.remove(i), files.remove(i)),
    decreases files.len(),
{
    let last = files.len() - 1;
    if i == last {
        assert(files.remove(i) =~= files.drop_last());
        lemma_inline_leaves_ignore_later_ids(cids, cids.remove(i), files.drop_last());
    } else {
        lemma_unread_image_is_omitted(cids.drop_last(), files.drop_last(), i);
        lemma_inline_leaves_ignore_later_ids(cids, cids.drop_last(), files.drop_last());
        assert(files.remove(i).drop_last() =~= files.drop_last().remove(i));
        assert(files.remove(i).last() == files.last());
        lemma_inline_leaves_ignore_later_ids(
            cids.remove(i),
            cids.drop_last().remove(i),
            files.drop_last().remove(i),
        );
        assert(cids.remove(i)[last - 1] == cids[last]);
    }
}

/// An attachment whose file was not read leaves no trace in the tree.
pub proof fn lemma_unread_attachment_is_omitted(files: Seq<FileView>, i: int)
    requires
        0 <= i < files.len(),
        files[i].contents is None,
    ensures
        attachment_leaves(files) == attachment_leaves(files.remove(i)),
    decreases files.len(),
{
    let last = files.len() - 1;
    if i == last {
        assert(files.remove(i) =~= files.drop_last());
    } else {
        lemma_unread_attachment_is_omitted(files.drop_last(), i);
        assert(files.remove(i).drop_last() =~= files.drop_last().remove(i));
        assert(files.remove(i).last() == files.last());
    }
}

} // verus!
