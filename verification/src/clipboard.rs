//! What one system-clipboard write carries and how it is laid out in records.
//!
//! Three flavours travel: plain text, HTML, and encoded images. Text and HTML share
//! one record so that a consumer reading only the first record still sees both; each
//! image gets a record of its own, stored as a `general.*` entry of its encoded
//! bytes. The pasteboard calls themselves are made by the caller, record by record.
use crate::file_uri::{contains_nul, has_nul};
use crate::text::{owned, str_eq};
use vstd::prelude::*;

verus! {

/// Mime types of the image flavours the pasteboard carries, in lookup order.
pub const MIME_PNG: &'static str = "image/png";

pub const MIME_JPEG: &'static str = "image/jpeg";

pub const MIME_TIFF: &'static str = "image/tiff";

/// UDMF record types of those flavours.
pub const TYPE_PNG: &'static str = "general.png";

pub const TYPE_JPEG: &'static str = "general.jpeg";

pub const TYPE_TIFF: &'static str = "general.tiff";

/// One image flavour of the clipboard: the encoded bytes plus the mime type that
/// says how to decode them.
#[derive(Debug, Clone)]
pub struct ClipboardImage {
    pub data: Vec<u8>,
    pub mime_type: String,
}

/// Everything one pasteboard operation carries.
#[derive(Debug, Clone)]
pub struct ClipboardContent {
    pub plain_text: String,
    pub html: Option<String>,
    pub images: Vec<ClipboardImage>,
}

impl Default for ClipboardContent {
    fn default() -> (c: ClipboardContent)
        ensures
            c.plain_text@.len() == 0,
            c.html is None,
            c.images@.len() == 0,
    {
        ClipboardContent { plain_text: String::new(), html: None, images: Vec::new() }
    }
}

/// The UDMF record type of an image mime type; GIF, WebP, SVG and anything else has
/// none and cannot travel.
pub open spec fn spec_image_type_id(mime: Seq<char>) -> Option<Seq<char>> {
    if mime == MIME_PNG@ {
        Some(TYPE_PNG@)
    } else if mime == MIME_JPEG@ {
        Some(TYPE_JPEG@)
    } else if mime == MIME_TIFF@ {
        Some(TYPE_TIFF@)
    } else {
        None
    }
}

/// The UDMF record type for the image mime type `mime`, if it can travel.
pub fn image_type_id(mime: &str) -> (r: Option<&'static str>)
    ensures
        match (r, spec_image_type_id(mime@)) {
            (Some(t), Some(u)) => t@ == u,
            (None, None) => true,
            _ => false,
        },
{
    if str_eq(mime, MIME_PNG) {
        Some(TYPE_PNG)
    } else if str_eq(mime, MIME_JPEG) {
        Some(TYPE_JPEG)
    } else if str_eq(mime, MIME_TIFF) {
        Some(TYPE_TIFF)
    } else {
        None
    }
}

/// The image flavours a read looks for in each record, in order, as
/// `(mime type, record type)`.
pub fn image_types() -> (r: Vec<(&'static str, &'static str)>)
    ensures
        r@.len() == 3,
        r@[0].0@ == MIME_PNG@ && r@[0].1@ == TYPE_PNG@,
        r@[1].0@ == MIME_JPEG@ && r@[1].1@ == TYPE_JPEG@,
        r@[2].0@ == MIME_TIFF@ && r@[2].1@ == TYPE_TIFF@,
{
    vec![(MIME_PNG, TYPE_PNG), (MIME_JPEG, TYPE_JPEG), (MIME_TIFF, TYPE_TIFF)]
}

/// One record a write builds.
#[derive(Debug, Clone, Copy, PartialEq, Eq, Structural)]
pub enum PlannedRecord {
    /// The shared text record, with the flavours it carries.
    Text { plain_text: bool, html: bool },
    /// The record of the image at this index of the content, stored under the record
    /// type of its mime type.
    Image { image: usize },
}

/// The records a write builds, and whether every flavour of the content can travel.
pub struct WritePlan {
    pub records: Vec<PlannedRecord>,
    /// No flavour had to be dropped and there is something to write: the write
    /// succeeds once every record is built, added and set.
    pub complete: bool,
}

/// Whether the content carries a non-empty HTML flavour.
pub open spec fn has_html(content: ClipboardContent) -> bool {
    content.html matches Some(h) && h@.len() > 0
}

/// Whether the text record can be built: neither of its flavours holds a NUL
/// character, which a C string cannot carry.
pub open spec fn text_record_buildable(content: ClipboardContent) -> bool {
    &&& (content.plain_text@.len() > 0 ==> !has_nul(content.plain_text@))
    &&& (has_html(content) ==> !has_nul(content.html->0@))
}

/// Whether an image can travel: its mime type has a record type and it carries bytes.
pub open spec fn image_travels(image: ClipboardImage) -> bool {
    spec_image_type_id(image.mime_type@) is Some && image.data@.len() > 0
}

/// The image records for the first `n` images, in content order.
pub open spec fn image_plan(images: Seq<ClipboardImage>, n: nat) -> Seq<PlannedRecord>
    decreases n,
{
    if n == 0 {
        Seq::empty()
    } else {
        let prev = image_plan(images, (n - 1) as nat);
        if image_travels(images[n - 1]) {
            prev.push(PlannedRecord::Image { image: (n - 1) as usize })
        } else {
            prev
        }
    }
}

/// The records of a write of `content`: the text record when there is text or HTML
/// and it can be built, then one record per travelling image.
pub open spec fn spec_plan_records(content: ClipboardContent) -> Seq<PlannedRecord> {
    let wants_text = content.plain_text@.len() > 0 || has_html(content);
    let text = if wants_text && text_record_buildable(content) {
        seq![PlannedRecord::Text { plain_text: content.plain_text@.len() > 0, html: has_html(content) }]
    } else {
        Seq::empty()
    };
    text + image_plan(content.images@, content.images@.len())
}

/// Whether nothing of `content` is dropped and there is something to write.
pub open spec fn spec_plan_complete(content: ClipboardContent) -> bool {
    let wants_text = content.plain_text@.len() > 0 || has_html(content);
    &&& wants_text ==> text_record_buildable(content)
    &&& forall|i: int| 0 <= i < content.images@.len() ==> image_travels(#[trigger] content.images@[i])
    &&& spec_plan_records(content).len() > 0
}

/// Lays out the records a write of `content` builds, and whether the write can
/// succeed: a dropped flavour (a NUL character in the text, an image whose type has
/// no record type, an image without bytes) or an empty write makes it fail.
pub fn plan_write(content: &ClipboardContent) -> (plan: WritePlan)
    ensures
        plan.records@ == spec_plan_records(*content),
        plan.complete == spec_plan_complete(*content),
{
    let mut records: Vec<PlannedRecord> = Vec::new();
    let mut complete = true;
    let has_text = !content.plain_text.as_str().is_empty();
    let html = match &content.html {
        Some(h) => !h.as_str().is_empty(),
        None => false,
    };
    if has_text || html {
        let text_nul = has_text && contains_nul(content.plain_text.as_str());
        let html_nul = html && match &content.html {
            Some(h) => contains_nul(h.as_str()),
            None => false,
        };
        if !text_nul && !html_nul {
            records.push(PlannedRecord::Text { plain_text: has_text, html });
        } else {
            complete = false;
        }
    }
    let ghost text_part = records@;
    assert(text_part + image_plan(content.images@, 0) =~= text_part);
    let mut i: usize = 0;
    while i < content.images.len()
        invariant
            0 <= i <= content.images@.len(),
            records@ == text_part + image_plan(content.images@, i as nat),
            complete == (((has_text || html) ==> text_record_buildable(*content)) && (forall|j: int|
                0 <= j < i ==> image_travels(#[trigger] content.images@[j]))),
        decreases content.images@.len() - i,
    {
        let image = &content.images[i];
        let travels = image_type_id(image.mime_type.as_str()).is_some() && image.data.len() > 0;
        assert(travels == image_travels(content.images@[i as int]));
        if travels {
            records.push(PlannedRecord::Image { image: i });
        } else {
            complete = false;
        }
        i = i + 1;
        assert(records@ =~= text_part + image_plan(content.images@, i as nat));
        assert((forall|j: int| 0 <= j < i ==> image_travels(#[trigger] content.images@[j])) == ((
        forall|j: int| 0 <= j < i - 1 ==> image_travels(#[trigger] content.images@[j]))
            && image_travels(content.images@[i - 1])));
    }
    if records.len() == 0 {
        complete = false;
    }
    WritePlan { records, complete }
}

/// Whether the planned record `rec` of `content` is one `plan_write` can lay out: the
/// text record carries exactly the flavours the content has, and an image record
/// names an image of the content that can travel.
pub open spec fn planned_record_ok(content: ClipboardContent, rec: PlannedRecord) -> bool {
    match rec {
        PlannedRecord::Text { plain_text, html } => {
            &&& plain_text == (content.plain_text@.len() > 0)
            &&& html == has_html(content)
            &&& content.plain_text@.len() > 0 || has_html(content)
            &&& text_record_buildable(content)
        },
        PlannedRecord::Image { image } => {
            &&& image < content.images@.len()
            &&& image_travels(content.images@[image as int])
        },
    }
}

/// Every image record among the first `n` images names one of them that can travel.
proof fn lemma_image_plan_ok(content: ClipboardContent, n: nat)
    requires
        n <= content.images@.len(),
        content.images@.len() <= usize::MAX,
    ensures
        forall|k: int|
            0 <= k < image_plan(content.images@, n).len() ==> {
                &&& (#[trigger] image_plan(content.images@, n)[k]) is Image
                &&& planned_record_ok(content, image_plan(content.images@, n)[k])
                &&& image_plan(content.images@, n)[k]->image < n
            },
    decreases n,
{
    if n > 0 {
        lemma_image_plan_ok(content, (n - 1) as nat);
    }
}

/// A write that drops nothing succeeds exactly when there is something to write: the
/// plan of `content` is complete exactly when its text and HTML hold no NUL
/// character, each image is a png, jpeg or tiff image with bytes, and there is
/// non-empty plain text, non-empty HTML or at least one image. Such a plan lays out one
/// text record when there is text or HTML, and one record per image.
pub proof fn lemma_plan_complete_exactly_when_writable(content: ClipboardContent)
    requires
        content.images@.len() <= usize::MAX,
    ensures
        spec_plan_complete(content) <==> {
            &&& content.plain_text@.len() > 0 ==> !has_nul(content.plain_text@)
            &&& has_html(content) ==> !has_nul(content.html->0@)
            &&& forall|i: int|
                0 <= i < content.images@.len() ==> {
                    &&& (#[trigger] content.images@[i]).mime_type@ == MIME_PNG@
                        || content.images@[i].mime_type@ == MIME_JPEG@
                        || content.images@[i].mime_type@ == MIME_TIFF@
                    &&& content.images@[i].data@.len() > 0
                }
            &&& content.plain_text@.len() > 0 || has_html(content) || content.images@.len() > 0
        },
        spec_plan_complete(content) ==> spec_plan_records(content).len() == (if content.plain_text@.len()
            > 0 || has_html(content) {
            1int
        } else {
            0int
        }) + content.images@.len(),
        spec_plan_complete(content) && (content.plain_text@.len() > 0 || has_html(content))
            ==> spec_plan_records(content)[0] == (PlannedRecord::Text {
            plain_text: content.plain_text@.len() > 0,
            html: has_html(content),
        }),
        forall|j: int|
            {
                let t = if content.plain_text@.len() > 0 || has_html(content) {
                    1int
                } else {
                    0int
                };
                spec_plan_complete(content) && t <= j < t + content.images@.len()
                    ==> #[trigger] spec_plan_records(content)[j] == (PlannedRecord::Image {
                    image: (j - t) as usize,
                })
            },
{
    let n = content.images@.len();
    let wants_text = content.plain_text@.len() > 0 || has_html(content);
    let all_travel = forall|i: int| 0 <= i < n ==> image_travels(#[trigger] content.images@[i]);
    assert forall|i: int| 0 <= i < n implies (image_travels(#[trigger] content.images@[i]) <==> {
        &&& content.images@[i].mime_type@ == MIME_PNG@ || content.images@[i].mime_type@
            == MIME_JPEG@ || content.images@[i].mime_type@ == MIME_TIFF@
        &&& content.images@[i].data@.len() > 0
    }) by {}
    let text = if wants_text && text_record_buildable(content) {
        seq![PlannedRecord::Text { plain_text: content.plain_text@.len() > 0, html: has_html(content) }]
    } else {
        Seq::empty()
    };
    assert(spec_plan_records(content) == text + image_plan(content.images@, n));
    if all_travel {
        lemma_image_plan_all(content.images@, n);
        assert(image_plan(content.images@, n).len() == n);
    }
    if !wants_text && n == 0 {
        assert(image_plan(content.images@, 0) == Seq::<PlannedRecord>::empty());
    }
}

/// Every record of the plan of `content` is one `plan_write` can lay out.
proof fn lemma_plan_records_ok(content: ClipboardContent)
    requires
        content.images@.len() <= usize::MAX,
    ensures
        forall|k: int|
            0 <= k < spec_plan_records(content).len() ==> planned_record_ok(
                content,
                #[trigger] spec_plan_records(content)[k],
            ),
{
    lemma_image_plan_ok(content, content.images@.len());
    let wants_text = content.plain_text@.len() > 0 || has_html(content);
    let text = if wants_text && text_record_buildable(content) {
        seq![PlannedRecord::Text { plain_text: content.plain_text@.len() > 0, html: has_html(content) }]
    } else {
        Seq::empty()
    };
    let images = image_plan(content.images@, content.images@.len());
    assert forall|k: int|
        0 <= k < spec_plan_records(content).len() implies planned_record_ok(
        content,
        #[trigger] spec_plan_records(content)[k],
    ) by {
        if k >= text.len() {
            assert(spec_plan_records(content)[k] == images[k - text.len()]);
        } else {
            assert(spec_plan_records(content)[k] == text[k]);
        }
    }
}

/// The view of an optional string slice.
pub open spec fn opt_str_view(s: Option<&str>) -> Option<Seq<char>> {
    match s {
        Some(t) => Some(t@),
        None => None,
    }
}

/// `built` is an answer the build steps may give for the planned record `rec` at
/// index `k` of the plan of `content` when handed that index and that record: the text
/// record gets the plain text and the HTML it carries, an image record the record type
/// of its image and its bytes. The platform keeps the record it builds at that index.
pub open spec fn record_built<T, I>(
    build_text_record: T,
    build_image_record: I,
    content: ClipboardContent,
    k: int,
    rec: PlannedRecord,
    built: bool,
) -> bool where
    T: Fn(usize, Option<&str>, Option<&str>) -> bool,
    I: Fn(usize, &str, &[u8]) -> bool,
 {
    match rec {
        PlannedRecord::Text { plain_text, html } => exists|t: Option<&str>, m: Option<&str>|
            {
                &&& opt_str_view(t) == (if plain_text {
                    Some(content.plain_text@)
                } else {
                    None
                })
                &&& opt_str_view(m) == (if html {
                    Some(content.html->0@)
                } else {
                    None
                })
                &&& #[trigger] call_ensures(build_text_record, (k as usize, t, m), built)
            },
        PlannedRecord::Image { image } => exists|type_id: &str, data: &[u8]|
            {
                &&& spec_image_type_id(content.images@[image as int].mime_type@) == Some(
                    type_id@,
                )
                &&& data@ == content.images@[image as int].data@
                &&& #[trigger] call_ensures(build_image_record, (k as usize, type_id, data), built)
            },
    }
}

/// Whether `plain_text` and `html` are the flavours of the text record of `content`,
/// when its plan builds one.
pub open spec fn text_record_args(
    content: ClipboardContent,
    plain_text: Option<&str>,
    html: Option<&str>,
) -> bool {
    &&& content.plain_text@.len() > 0 || has_html(content)
    &&& text_record_buildable(content)
    &&& opt_str_view(plain_text) == (if content.plain_text@.len() > 0 {
        Some(content.plain_text@)
    } else {
        None
    })
    &&& opt_str_view(html) == (if has_html(content) {
        Some(content.html->0@)
    } else {
        None
    })
}

/// Whether `type_id` and `data` are the record type and bytes of the image at
/// `image` of `content`, which can travel.
pub open spec fn image_record_args(
    content: ClipboardContent,
    image: int,
    type_id: &str,
    data: &[u8],
) -> bool {
    &&& 0 <= image < content.images@.len()
    &&& image_travels(content.images@[image])
    &&& spec_image_type_id(content.images@[image].mime_type@) == Some(type_id@)
    &&& data@ == content.images@[image].data@
}

/// Whether the text record is planned at index `k` of the plan of `content`.
pub open spec fn text_planned_at(content: ClipboardContent, k: int) -> bool {
    0 <= k < spec_plan_records(content).len() && spec_plan_records(content)[k] is Text
}

/// Whether an image record is planned at index `k` of the plan of `content`.
pub open spec fn image_planned_at(content: ClipboardContent, k: int) -> bool {
    0 <= k < spec_plan_records(content).len() && spec_plan_records(content)[k] is Image
}

/// Whether every answer is `true`.
pub open spec fn all_true(s: Seq<bool>) -> bool {
    forall|k: int| 0 <= k < s.len() ==> #[trigger] s[k]
}

/// How a write of `content` ends when the build steps answered `built`, record by
/// record in plan order: only a complete plan whose records were all built is added
/// to the data set (the records at indices `0..n` of the plan, in index order), only
/// added records are handed to the pasteboard, and the write succeeded exactly when
/// the pasteboard took them.
pub open spec fn write_outcome<T, I, A, S>(
    build_text_record: T,
    build_image_record: I,
    add_records: A,
    set_data: S,
    content: ClipboardContent,
    built: Seq<bool>,
    written: bool,
) -> bool where
    T: Fn(usize, Option<&str>, Option<&str>) -> bool,
    I: Fn(usize, &str, &[u8]) -> bool,
    A: Fn(usize) -> bool,
    S: Fn() -> bool,
 {
    &&& built.len() == spec_plan_records(content).len()
    &&& forall|k: int|
        0 <= k < built.len() ==> record_built(
            build_text_record,
            build_image_record,
            content,
            k,
            spec_plan_records(content)[k],
            #[trigger] built[k],
        )
    &&& if spec_plan_complete(content) && all_true(built) {
        exists|added: bool|
            {
                &&& #[trigger] call_ensures(
                    add_records,
                    (spec_plan_records(content).len() as usize,),
                    added,
                )
                &&& if added {
                    exists|set: bool| #[trigger] call_ensures(set_data, (), set) && written == set
                } else {
                    !written
                }
            }
    } else {
        !written
    }
}

/// Writes every flavour of `content` through the pasteboard steps of the platform:
/// builds each planned record, handing the step its index in the plan
/// (`build_text_record`, `build_image_record`; the platform keeps each record at its
/// index), then, when nothing was dropped and every record was built, adds the
/// records at indices `0..n` of the plan, in that order, to the data set
/// (`add_records(n)`) and hands it to the pasteboard (`set_data`). Returns `false`
/// when the pasteboard was left unchanged; in particular a content with a flavour
/// that cannot travel, or with nothing to write, is never reported as written.
pub fn write_content_with<T, I, A, S>(
    content: &ClipboardContent,
    build_text_record: T,
    build_image_record: I,
    add_records: A,
    set_data: S,
) -> (written: bool) where
    T: Fn(usize, Option<&str>, Option<&str>) -> bool,
    I: Fn(usize, &str, &[u8]) -> bool,
    A: Fn(usize) -> bool,
    S: Fn() -> bool,

    requires
        forall|k: usize, t: Option<&str>, m: Option<&str>|
            text_planned_at(*content, k as int) && text_record_args(*content, t, m)
                ==> call_requires(build_text_record, (k, t, m)),
        forall|k: usize, t: &str, d: &[u8]|
            image_planned_at(*content, k as int) && image_record_args(
                *content,
                spec_plan_records(*content)[k as int]->image as int,
                t,
                d,
            ) ==> call_requires(build_image_record, (k, t, d)),
        spec_plan_complete(*content) ==> call_requires(
            add_records,
            (spec_plan_records(*content).len() as usize,),
        ),
        spec_plan_complete(*content) ==> call_requires(set_data, ()),
    ensures
        exists|built: Seq<bool>|
            #[trigger] write_outcome(
                build_text_record,
                build_image_record,
                add_records,
                set_data,
                *content,
                built,
                written,
            ),
        written ==> spec_plan_complete(*content),
{
    let plan = plan_write(content);
    let image_count = content.images.len();
    proof {
        assert(image_count == content.images@.len());
        lemma_plan_records_ok(*content);
    }
    let mut success = plan.complete;
    let ghost mut built: Seq<bool> = Seq::empty();
    let mut k: usize = 0;
    while k < plan.records.len()
        invariant
            0 <= k <= plan.records@.len(),
            plan.records@ == spec_plan_records(*content),
            plan.complete == spec_plan_complete(*content),
            forall|j: int|
                0 <= j < plan.records@.len() ==> planned_record_ok(
                    *content,
                    #[trigger] plan.records@[j],
                ),
            forall|k: usize, t: Option<&str>, m: Option<&str>|
                text_planned_at(*content, k as int) && text_record_args(*content, t, m)
                    ==> call_requires(build_text_record, (k, t, m)),
            forall|k: usize, t: &str, d: &[u8]|
                image_planned_at(*content, k as int) && image_record_args(
                    *content,
                    spec_plan_records(*content)[k as int]->image as int,
                    t,
                    d,
                ) ==> call_requires(build_image_record, (k, t, d)),
            built.len() == k,
            forall|j: int|
                0 <= j < k ==> record_built(
                    build_text_record,
                    build_image_record,
                    *content,
                    j,
                    plan.records@[j],
                    #[trigger] built[j],
                ),
            success == (plan.complete && all_true(built)),
        decreases plan.records@.len() - k,
    {
        let rec = plan.records[k];
        let b = match rec {
            PlannedRecord::Text { plain_text, html } => {
                let text: Option<&str> = if plain_text {
                    Some(content.plain_text.as_str())
                } else {
                    None
                };
                let markup: Option<&str> = if html {
                    match &content.html {
                        Some(h) => Some(h.as_str()),
                        None => None,
                    }
                } else {
                    None
                };
                assert(text_planned_at(*content, k as int));
                assert(text_record_args(*content, text, markup));
                let r = build_text_record(k, text, markup);
                assert(record_built(
                    build_text_record,
                    build_image_record,
                    *content,
                    k as int,
                    rec,
                    r,
                ));
                r
            },
            PlannedRecord::Image { image } => {
                let img = &content.images[image];
                match image_type_id(img.mime_type.as_str()) {
                    Some(type_id) => {
                        let data = img.data.as_slice();
                        assert(image_planned_at(*content, k as int));
                        assert(image_record_args(*content, image as int, type_id, data));
                        let r = build_image_record(k, type_id, data);
                        assert(record_built(
                            build_text_record,
                            build_image_record,
                            *content,
                            k as int,
                            rec,
                            r,
                        ));
                        r
                    },
                    None => false,
                }
            },
        };
        proof {
            let old_built = built;
            built = built.push(b);
            assert(all_true(built) == (all_true(old_built) && b)) by {
                if all_true(old_built) && b {
                    assert forall|j: int| 0 <= j < built.len() implies #[trigger] built[j] by {
                        if j < old_built.len() {
                            assert(built[j] == old_built[j]);
                        }
                    }
                }
                if all_true(built) {
                    assert forall|j: int| 0 <= j < old_built.len() implies #[trigger] old_built[j] by {
                        assert(built[j] == old_built[j]);
                    }
                    assert(built[old_built.len() as int] == b);
                }
            }
            assert forall|j: int| 0 <= j < k + 1 implies record_built(
                build_text_record,
                build_image_record,
                *content,
                j,
                plan.records@[j],
                #[trigger] built[j],
            ) by {
                if j < k {
                    assert(built[j] == old_built[j]);
                }
            }
        }
        if !b {
            success = false;
        }
        k = k + 1;
    }
    let mut written = false;
    if success {
        let added = add_records(plan.records.len());
        if added {
            written = set_data();
        }
    }
    assert(write_outcome(
        build_text_record,
        build_image_record,
        add_records,
        set_data,
        *content,
        built,
        written,
    ));
    written
}

/// Whether an image read from the pasteboard is well formed: one of the three mime
/// types that can travel, with bytes.
pub open spec fn read_image_ok(image: ClipboardImage) -> bool {
    &&& (image.mime_type@ == MIME_PNG@ || image.mime_type@ == MIME_JPEG@ || image.mime_type@
        == MIME_TIFF@)
    &&& image.data@.len() > 0
}

/// Whether an entry lookup found bytes.
pub open spec fn has_bytes(entry: Option<Vec<u8>>) -> bool {
    entry matches Some(d) && d@.len() > 0
}

/// `image` is the image of mime type `mime` holding the bytes of `entry`.
pub open spec fn image_of(mime: Seq<char>, entry: Option<Vec<u8>>, image: Option<ClipboardImage>) -> bool {
    match (entry, image) {
        (Some(d), Some(i)) => i.data@ == d@ && i.mime_type@ == mime,
        _ => false,
    }
}

/// `image` is what reading the record at `record` gives when the entry lookups
/// answer as `record_entry` may: the first of the png, jpeg and tiff entries that
/// holds bytes, looked up in that order, or none.
pub open spec fn image_read<E>(record_entry: E, record: usize, image: Option<ClipboardImage>) -> bool where
    E: Fn(usize, &str) -> Option<Vec<u8>>,
 {
    exists|png: Option<Vec<u8>>|
        {
            &&& #[trigger] call_ensures(record_entry, (record, TYPE_PNG), png)
            &&& if has_bytes(png) {
                image_of(MIME_PNG@, png, image)
            } else {
                exists|jpeg: Option<Vec<u8>>|
                    {
                        &&& #[trigger] call_ensures(record_entry, (record, TYPE_JPEG), jpeg)
                        &&& if has_bytes(jpeg) {
                            image_of(MIME_JPEG@, jpeg, image)
                        } else {
                            exists|tiff: Option<Vec<u8>>|
                                {
                                    &&& #[trigger] call_ensures(
                                        record_entry,
                                        (record, TYPE_TIFF),
                                        tiff,
                                    )
                                    &&& if has_bytes(tiff) {
                                        image_of(MIME_TIFF@, tiff, image)
                                    } else {
                                        image is None
                                    }
                                }
                        }
                    }
            }
        }
}

/// The first image flavour the record at `record` carries, looked up in the order
/// png, jpeg, tiff through `record_entry`; an entry without bytes counts as absent.
pub fn read_image<E>(record_entry: &E, record: usize) -> (image: Option<ClipboardImage>) where
    E: Fn(usize, &str) -> Option<Vec<u8>>,

    requires
        forall|t: &str| call_requires(*record_entry, (record, t)),
    ensures
        image_read(*record_entry, record, image),
        image matches Some(img) ==> read_image_ok(img),
{
    let png = record_entry(record, TYPE_PNG);
    let ghost g_png = png;
    if let Some(data) = png {
        if data.len() > 0 {
            let image = Some(ClipboardImage { data, mime_type: owned(MIME_PNG) });
            assert(image_read(*record_entry, record, image));
            return image;
        }
    }
    let jpeg = record_entry(record, TYPE_JPEG);
    let ghost g_jpeg = jpeg;
    if let Some(data) = jpeg {
        if data.len() > 0 {
            let image = Some(ClipboardImage { data, mime_type: owned(MIME_JPEG) });
            assert(!has_bytes(g_png));
            assert(image_read(*record_entry, record, image));
            return image;
        }
    }
    let tiff = record_entry(record, TYPE_TIFF);
    let ghost g_tiff = tiff;
    if let Some(data) = tiff {
        if data.len() > 0 {
            let image = Some(ClipboardImage { data, mime_type: owned(MIME_TIFF) });
            assert(!has_bytes(g_png) && !has_bytes(g_jpeg));
            assert(image_read(*record_entry, record, image));
            return image;
        }
    }
    assert(!has_bytes(g_png) && !has_bytes(g_jpeg) && !has_bytes(g_tiff));
    assert(image_read(*record_entry, record, None));
    None
}

/// The values of the `Some` entries of `s`, in order.
pub open spec fn somes<T>(s: Seq<Option<T>>) -> Seq<T>
    decreases s.len(),
{
    if s.len() == 0 {
        Seq::empty()
    } else {
        let front = somes(s.drop_last());
        match s.last() {
            Some(x) => front.push(x),
            None => front,
        }
    }
}

/// The HTML a read keeps from the answers `htmls` of the records it asked.
pub open spec fn last_html(htmls: Seq<Option<String>>) -> Option<String> {
    if htmls.len() == 0 {
        None
    } else {
        htmls.last()
    }
}

/// The text a read keeps from the primary plain-text answer (empty when absent).
pub open spec fn text_of(text: Option<String>) -> Seq<char> {
    match text {
        Some(t) => t@,
        None => Seq::empty(),
    }
}

/// Whether `images` (one answer per record) and `htmls` (the HTML answers of the
/// records asked, in order) are answers a read of `count` records may get: each
/// record gives the image `read_image` finds in it, and records are asked for HTML
/// from the first on, until one carries some.
pub open spec fn records_answered<H, E>(
    record_html: H,
    record_entry: E,
    count: usize,
    images: Seq<Option<ClipboardImage>>,
    htmls: Seq<Option<String>>,
) -> bool where H: Fn(usize) -> Option<String>, E: Fn(usize, &str) -> Option<Vec<u8>> {
    &&& images.len() == count
    &&& forall|i: int| 0 <= i < count ==> image_read(record_entry, i as usize, #[trigger] images[i])
    &&& htmls.len() <= count
    &&& forall|i: int|
        0 <= i < htmls.len() ==> call_ensures(record_html, (i as usize,), #[trigger] htmls[i])
    &&& forall|i: int| 0 <= i < htmls.len() - 1 ==> (#[trigger] htmls[i]) is None
    &&& htmls.len() < count ==> htmls.len() > 0 && htmls.last() is Some
}

/// Reads every flavour the pasteboard data carries through the read steps of the
/// platform: the primary plain text (empty when absent), the number of records, the
/// HTML of the first record that carries one, and the first image flavour of each
/// record.
pub fn read_content_with<P, C, H, E>(
    primary_plain_text: P,
    record_count: C,
    record_html: H,
    record_entry: E,
) -> (content: ClipboardContent) where
    P: Fn() -> Option<String>,
    C: Fn() -> usize,
    H: Fn(usize) -> Option<String>,
    E: Fn(usize, &str) -> Option<Vec<u8>>,

    requires
        call_requires(primary_plain_text, ()),
        call_requires(record_count, ()),
        forall|i: usize| call_requires(record_html, (i,)),
        forall|i: usize, t: &str| call_requires(record_entry, (i, t)),
    ensures
        exists|text: Option<String>|
            #[trigger] call_ensures(primary_plain_text, (), text) && content.plain_text@
                == text_of(text),
        exists|count: usize, images: Seq<Option<ClipboardImage>>, htmls: Seq<Option<String>>|
            {
                &&& call_ensures(record_count, (), count)
                &&& #[trigger] records_answered(record_html, record_entry, count, images, htmls)
                &&& content.images@ == somes(images)
                &&& content.html == last_html(htmls)
            },
        forall|i: int| 0 <= i < content.images@.len() ==> read_image_ok(#[trigger] content.images@[i]),
{
    let text = primary_plain_text();
    let ghost g_text = text;
    let plain_text = match text {
        Some(t) => t,
        None => String::new(),
    };
    let mut html: Option<String> = None;
    let mut images: Vec<ClipboardImage> = Vec::new();
    let count = record_count();
    let ghost mut answers: Seq<Option<ClipboardImage>> = Seq::empty();
    let ghost mut htmls: Seq<Option<String>> = Seq::empty();
    let mut record: usize = 0;
    while record < count
        invariant
            0 <= record <= count,
            forall|i: usize| call_requires(record_html, (i,)),
            forall|i: usize, t: &str| call_requires(record_entry, (i, t)),
            answers.len() == record,
            forall|i: int|
                0 <= i < record ==> image_read(record_entry, i as usize, #[trigger] answers[i]),
            images@ == somes(answers),
            forall|i: int| 0 <= i < images@.len() ==> read_image_ok(#[trigger] images@[i]),
            htmls.len() <= record,
            forall|i: int|
                0 <= i < htmls.len() ==> call_ensures(record_html, (i as usize,), #[trigger] htmls[i]),
            forall|i: int| 0 <= i < htmls.len() - 1 ==> (#[trigger] htmls[i]) is None,
            html == last_html(htmls),
            htmls.len() < record ==> htmls.len() > 0 && htmls.last() is Some,
            html is None ==> htmls.len() == record,
        decreases count - record,
    {
        if html.is_none() {
            let h = record_html(record);
            proof {
                let old_htmls = htmls;
                htmls = htmls.push(h);
                assert forall|i: int| 0 <= i < htmls.len() - 1 implies (#[trigger] htmls[i]) is None by {
                    assert(htmls[i] == old_htmls[i]);
                    if i < old_htmls.len() - 1 {
                    } else {
                        assert(old_htmls.last() == old_htmls[i]);
                    }
                }
                assert forall|i: int|
                    0 <= i < htmls.len() implies call_ensures(record_html, (i as usize,), #[trigger] htmls[i]) by {
                    if i < old_htmls.len() {
                        assert(htmls[i] == old_htmls[i]);
                    }
                }
            }
            html = h;
        }
        let found = read_image(&record_entry, record);
        proof {
            let old_answers = answers;
            answers = answers.push(found);
            assert(answers.drop_last() =~= old_answers);
            assert forall|i: int|
                0 <= i < record + 1 implies image_read(record_entry, i as usize, #[trigger] answers[i]) by {
                if i < record {
                    assert(answers[i] == old_answers[i]);
                }
            }
        }
        match found {
            Some(image) => images.push(image),
            None => {},
        }
        record = record + 1;
    }
    let content = ClipboardContent { plain_text, html, images };
    assert(records_answered(record_html, record_entry, count, answers, htmls));
    content
}

// ---------------------------------------------------------------------------------
// What travels comes back
// ---------------------------------------------------------------------------------

/// A pasteboard record as the read steps see it: its plain text, its HTML, and its
/// general entries by record type.
pub struct RecordModel {
    pub plain_text: Option<Seq<char>>,
    pub html: Option<Seq<char>>,
    pub entries: Map<Seq<char>, Seq<u8>>,
}

/// The record the planned record `rec` of `content` is built into, from what the
/// build step is handed for it (see `record_built`); the platform keeps it at the
/// record's index in the plan.
pub open spec fn record_model(content: ClipboardContent, rec: PlannedRecord) -> RecordModel {
    match rec {
        PlannedRecord::Text { plain_text, html } => RecordModel {
            plain_text: if plain_text {
                Some(content.plain_text@)
            } else {
                None
            },
            html: if html {
                Some(content.html->0@)
            } else {
                None
            },
            entries: Map::empty(),
        },
        PlannedRecord::Image { image } => RecordModel {
            plain_text: None,
            html: None,
            entries: Map::empty().insert(
                spec_image_type_id(content.images@[image as int].mime_type@)->0,
                content.images@[image as int].data@,
            ),
        },
    }
}

/// The records a write of `content` lays out: the record built for index `k` of the
/// plan is the `k`-th record added to the data set.
pub open spec fn laid_out(content: ClipboardContent) -> Seq<RecordModel> {
    spec_plan_records(content).map_values(|rec: PlannedRecord| record_model(content, rec))
}

/// The bytes of the entry `type_id` of a record, when it holds some.
pub open spec fn entry_bytes(record: RecordModel, type_id: Seq<char>) -> Option<Seq<u8>> {
    if record.entries.contains_key(type_id) && record.entries[type_id].len() > 0 {
        Some(record.entries[type_id])
    } else {
        None
    }
}

/// The first image of a record, looked up png, jpeg, tiff, as (mime type, bytes).
pub open spec fn model_image(record: RecordModel) -> Option<(Seq<char>, Seq<u8>)> {
    if entry_bytes(record, TYPE_PNG@) is Some {
        Some((MIME_PNG@, entry_bytes(record, TYPE_PNG@)->0))
    } else if entry_bytes(record, TYPE_JPEG@) is Some {
        Some((MIME_JPEG@, entry_bytes(record, TYPE_JPEG@)->0))
    } else if entry_bytes(record, TYPE_TIFF@) is Some {
        Some((MIME_TIFF@, entry_bytes(record, TYPE_TIFF@)->0))
    } else {
        None
    }
}

/// The images a read of `records` finds, one per record that carries one, in order.
pub open spec fn model_images(records: Seq<RecordModel>) -> Seq<(Seq<char>, Seq<u8>)>
    decreases records.len(),
{
    if records.len() == 0 {
        Seq::empty()
    } else {
        let front = model_images(records.drop_last());
        match model_image(records.last()) {
            Some(x) => front.push(x),
            None => front,
        }
    }
}

/// The HTML of the first of `records` from index `k` on that carries some.
pub open spec fn first_html(records: Seq<RecordModel>, k: int) -> Option<Seq<char>>
    decreases records.len() - k,
{
    if k < 0 || k >= records.len() {
        None
    } else if records[k].html is Some {
        records[k].html
    } else {
        first_html(records, k + 1)
    }
}

/// The plain text of the first of `records` from index `k` on that carries some: the
/// primary plain text of the data set.
pub open spec fn first_plain_text(records: Seq<RecordModel>, k: int) -> Option<Seq<char>>
    decreases records.len() - k,
{
    if k < 0 || k >= records.len() {
        None
    } else if records[k].plain_text is Some {
        records[k].plain_text
    } else {
        first_plain_text(records, k + 1)
    }
}

/// The (mime type, bytes) pairs of images.
pub open spec fn image_pairs(images: Seq<ClipboardImage>) -> Seq<(Seq<char>, Seq<u8>)> {
    images.map_values(|i: ClipboardImage| (i.mime_type@, i.data@))
}

/// With every image travelling, the image records are one per image, in order.
proof fn lemma_image_plan_all(images: Seq<ClipboardImage>, n: nat)
    requires
        n <= images.len(),
        images.len() <= usize::MAX,
        forall|i: int| 0 <= i < images.len() ==> image_travels(#[trigger] images[i]),
    ensures
        image_plan(images, n) =~= Seq::new(n, |k: int| PlannedRecord::Image { image: k as usize }),
    decreases n,
{
    if n > 0 {
        lemma_image_plan_all(images, (n - 1) as nat);
        assert(image_travels(images[n - 1]));
    }
}

/// Records with no HTML and no plain text leave the first ones unchanged.
proof fn lemma_skip_textless(records: Seq<RecordModel>, k: int, j: int)
    requires
        0 <= k <= j <= records.len(),
        forall|m: int| k <= m < j ==> (#[trigger] records[m]).html is None,
    ensures
        first_html(records, k) == first_html(records, j),
    decreases j - k,
{
    if k < j {
        lemma_skip_textless(records, k + 1, j);
    }
}

/// Records with no plain text leave the first plain text unchanged.
proof fn lemma_skip_plainless(records: Seq<RecordModel>, k: int, j: int)
    requires
        0 <= k <= j <= records.len(),
        forall|m: int| k <= m < j ==> (#[trigger] records[m]).plain_text is None,
    ensures
        first_plain_text(records, k) == first_plain_text(records, j),
    decreases j - k,
{
    if k < j {
        lemma_skip_plainless(records, k + 1, j);
    }
}

/// The images of the records of the first `n` images, every one of which travels.
proof fn lemma_image_records_read(content: ClipboardContent, n: nat)
    requires
        n <= content.images@.len(),
        content.images@.len() <= usize::MAX,
        forall|i: int| 0 <= i < content.images@.len() ==> image_travels(#[trigger] content.images@[i]),
    ensures
        model_images(
            Seq::new(n, |k: int| record_model(content, PlannedRecord::Image { image: k as usize })),
        ) =~= image_pairs(content.images@.subrange(0, n as int)),
    decreases n,
{
    reveal_strlit("general.png");
    reveal_strlit("general.jpeg");
    reveal_strlit("general.tiff");
    reveal_strlit("image/png");
    reveal_strlit("image/jpeg");
    reveal_strlit("image/tiff");
    let records = Seq::new(n, |k: int| record_model(content, PlannedRecord::Image { image: k as usize }));
    if n > 0 {
        lemma_image_records_read(content, (n - 1) as nat);
        let prev = Seq::new(
            (n - 1) as nat,
            |k: int| record_model(content, PlannedRecord::Image { image: k as usize }),
        );
        assert(records.drop_last() =~= prev);
        let img = content.images@[n - 1];
        assert(image_travels(img));
        let r = records.last();
        assert(r == record_model(content, PlannedRecord::Image { image: (n - 1) as usize }));
        let ty = spec_image_type_id(img.mime_type@)->0;
        assert(r.entries =~= Map::<Seq<char>, Seq<u8>>::empty().insert(ty, img.data@));
        assert(TYPE_PNG@.len() == 11 && TYPE_JPEG@.len() == 12 && TYPE_TIFF@.len() == 12);
        assert(TYPE_JPEG@ != TYPE_TIFF@) by {
            assert(TYPE_JPEG@[8] != TYPE_TIFF@[8]);
        }
        if img.mime_type@ == MIME_PNG@ {
            assert(ty == TYPE_PNG@);
        } else if img.mime_type@ == MIME_JPEG@ {
            assert(ty == TYPE_JPEG@);
            assert(!r.entries.contains_key(TYPE_PNG@));
        } else {
            assert(ty == TYPE_TIFF@);
            assert(!r.entries.contains_key(TYPE_PNG@));
            assert(!r.entries.contains_key(TYPE_JPEG@));
        }
        assert(model_image(r) == Some((img.mime_type@, img.data@)));
        assert(content.images@.subrange(0, n as int).drop_last() =~= content.images@.subrange(
            0,
            n - 1,
        ));
    }
}

/// The records with no text in front of them.
proof fn lemma_model_images_prefix(text: Seq<RecordModel>, rest: Seq<RecordModel>)
    requires
        forall|m: int| 0 <= m < text.len() ==> model_image(#[trigger] text[m]) is None,
    ensures
        model_images(text + rest) == model_images(rest),
    decreases rest.len(),
{
    if rest.len() == 0 {
        assert(text + rest =~= text);
        lemma_model_images_none(text);
    } else {
        lemma_model_images_prefix(text, rest.drop_last());
        assert((text + rest).drop_last() =~= text + rest.drop_last());
        assert((text + rest).last() == rest.last());
    }
}

/// Records without an image give no images.
proof fn lemma_model_images_none(records: Seq<RecordModel>)
    requires
        forall|m: int| 0 <= m < records.len() ==> model_image(#[trigger] records[m]) is None,
    ensures
        model_images(records) == Seq::<(Seq<char>, Seq<u8>)>::empty(),
    decreases records.len(),
{
    if records.len() > 0 {
        lemma_model_images_none(records.drop_last());
        assert(model_image(records[records.len() - 1]) is None);
    }
}

/// What travels comes back: reading the records a complete write of `content` lays
/// out gives its plain text, its HTML when it has a non-empty one, and every image,
/// with its mime type and bytes, in order.
pub proof fn lemma_write_then_read(content: ClipboardContent)
    requires
        spec_plan_complete(content),
        content.images@.len() <= usize::MAX,
    ensures
        (match first_plain_text(laid_out(content), 0) {
            Some(t) => t,
            None => Seq::empty(),
        }) == content.plain_text@,
        first_html(laid_out(content), 0) == (if has_html(content) {
            Some(content.html->0@)
        } else {
            None
        }),
        model_images(laid_out(content)) == image_pairs(content.images@),
{
    let n = content.images@.len();
    lemma_image_plan_all(content.images@, n);
    let wants_text = content.plain_text@.len() > 0 || has_html(content);
    let text_rec = PlannedRecord::Text {
        plain_text: content.plain_text@.len() > 0,
        html: has_html(content),
    };
    let text = if wants_text {
        seq![text_rec]
    } else {
        Seq::empty()
    };
    let image_recs = Seq::new(n, |k: int| PlannedRecord::Image { image: k as usize });
    assert(spec_plan_records(content) =~= text + image_recs);
    let text_models = text.map_values(|rec: PlannedRecord| record_model(content, rec));
    let image_models = Seq::new(
        n,
        |k: int| record_model(content, PlannedRecord::Image { image: k as usize }),
    );
    assert(laid_out(content) =~= text_models + image_models);
    let records = laid_out(content);
    // Images.
    assert forall|m: int| 0 <= m < text_models.len() implies model_image(
        #[trigger] text_models[m],
    ) is None by {
        assert(text_models[m].entries =~= Map::<Seq<char>, Seq<u8>>::empty());
    }
    lemma_model_images_prefix(text_models, image_models);
    lemma_image_records_read(content, n);
    assert(content.images@.subrange(0, n as int) =~= content.images@);
    // Text and HTML: the image records carry neither.
    let t = text_models.len() as int;
    assert forall|m: int| t <= m < records.len() implies (#[trigger] records[m]).html is None
        && records[m].plain_text is None by {
        assert(records[m] == image_models[m - t]);
    }
    lemma_skip_textless(records, t, records.len() as int);
    lemma_skip_plainless(records, t, records.len() as int);
    if wants_text {
        assert(records[0] == record_model(content, text_rec));
        if content.plain_text@.len() == 0 {
            lemma_skip_plainless(records, 0, t);
            assert(content.plain_text@ =~= Seq::<char>::empty());
        }
        if !has_html(content) {
            lemma_skip_textless(records, 0, t);
        }
    } else {
        assert(content.plain_text@ =~= Seq::<char>::empty());
    }
}

/// The view of an optional string.
pub open spec fn opt_string_view(s: Option<String>) -> Option<Seq<char>> {
    match s {
        Some(t) => Some(t@),
        None => None,
    }
}

/// The view of optional bytes.
pub open spec fn opt_bytes_view(b: Option<Vec<u8>>) -> Option<Seq<u8>> {
    match b {
        Some(d) => Some(d@),
        None => None,
    }
}

/// The (mime type, bytes) pair of an optional image.
pub open spec fn opt_image_pair(image: Option<ClipboardImage>) -> Option<(Seq<char>, Seq<u8>)> {
    match image {
        Some(i) => Some((i.mime_type@, i.data@)),
        None => None,
    }
}

/// The entry lookups of the record at `i` answer as `record` holds its entries.
pub open spec fn entries_follow<E>(record_entry: E, i: usize, record: RecordModel) -> bool where
    E: Fn(usize, &str) -> Option<Vec<u8>>,
 {
    forall|t: &str, r: Option<Vec<u8>>|
        #[trigger] call_ensures(record_entry, (i, t), r) ==> opt_bytes_view(r) == (if record.entries.contains_key(t@) {
            Some(record.entries[t@])
        } else {
            None
        })
}

/// The read steps answer as the pasteboard data `records` holds: the primary plain
/// text is that of the first record carrying one, the count is the number of
/// records, and each record answers with its own HTML and entries.
pub open spec fn answers_follow<P, C, H, E>(
    primary_plain_text: P,
    record_count: C,
    record_html: H,
    record_entry: E,
    records: Seq<RecordModel>,
) -> bool where
    P: Fn() -> Option<String>,
    C: Fn() -> usize,
    H: Fn(usize) -> Option<String>,
    E: Fn(usize, &str) -> Option<Vec<u8>>,
 {
    &&& forall|t: Option<String>|
        #[trigger] call_ensures(primary_plain_text, (), t) ==> opt_string_view(t)
            == first_plain_text(records, 0)
    &&& forall|n: usize| #[trigger] call_ensures(record_count, (), n) ==> n == records.len()
    &&& forall|i: usize, r: Option<String>|
        #[trigger] call_ensures(record_html, (i,), r) && i < records.len() ==> opt_string_view(r)
            == records[i as int].html
    &&& forall|i: usize| i < records.len() ==> #[trigger] entries_follow(record_entry, i, records[i as int])
}

/// A record read through lookups that follow it gives the image it holds.
proof fn lemma_image_read_follows<E>(record_entry: E, i: usize, image: Option<ClipboardImage>, record: RecordModel)
    where E: Fn(usize, &str) -> Option<Vec<u8>>,
    requires
        image_read(record_entry, i, image),
        entries_follow(record_entry, i, record),
    ensures
        opt_image_pair(image) == model_image(record),
{
    let png = choose|png: Option<Vec<u8>>|
        {
            &&& #[trigger] call_ensures(record_entry, (i, TYPE_PNG), png)
            &&& if has_bytes(png) {
                image_of(MIME_PNG@, png, image)
            } else {
                exists|jpeg: Option<Vec<u8>>|
                    {
                        &&& #[trigger] call_ensures(record_entry, (i, TYPE_JPEG), jpeg)
                        &&& if has_bytes(jpeg) {
                            image_of(MIME_JPEG@, jpeg, image)
                        } else {
                            exists|tiff: Option<Vec<u8>>|
                                {
                                    &&& #[trigger] call_ensures(record_entry, (i, TYPE_TIFF), tiff)
                                    &&& if has_bytes(tiff) {
                                        image_of(MIME_TIFF@, tiff, image)
                                    } else {
                                        image is None
                                    }
                                }
                        }
                    }
            }
        };
    assert(has_bytes(png) == (entry_bytes(record, TYPE_PNG@) is Some));
    if !has_bytes(png) {
        let jpeg = choose|jpeg: Option<Vec<u8>>|
            {
                &&& #[trigger] call_ensures(record_entry, (i, TYPE_JPEG), jpeg)
                &&& if has_bytes(jpeg) {
                    image_of(MIME_JPEG@, jpeg, image)
                } else {
                    exists|tiff: Option<Vec<u8>>|
                        {
                            &&& #[trigger] call_ensures(record_entry, (i, TYPE_TIFF), tiff)
                            &&& if has_bytes(tiff) {
                                image_of(MIME_TIFF@, tiff, image)
                            } else {
                                image is None
                            }
                        }
                }
            };
        assert(has_bytes(jpeg) == (entry_bytes(record, TYPE_JPEG@) is Some));
        if !has_bytes(jpeg) {
            let tiff = choose|tiff: Option<Vec<u8>>|
                {
                    &&& #[trigger] call_ensures(record_entry, (i, TYPE_TIFF), tiff)
                    &&& if has_bytes(tiff) {
                        image_of(MIME_TIFF@, tiff, image)
                    } else {
                        image is None
                    }
                };
            assert(has_bytes(tiff) == (entry_bytes(record, TYPE_TIFF@) is Some));
        }
    }
}

/// The images kept from the first `n` answers are those the first `n` records hold.
proof fn lemma_somes_follow(
    images: Seq<Option<ClipboardImage>>,
    records: Seq<RecordModel>,
    n: nat,
)
    requires
        n <= images.len(),
        images.len() == records.len(),
        forall|i: int| 0 <= i < images.len() ==> opt_image_pair(#[trigger] images[i]) == model_image(records[i]),
    ensures
        image_pairs(somes(images.subrange(0, n as int))) == model_images(records.subrange(0, n as int)),
    decreases n,
{
    if n == 0 {
        assert(image_pairs(somes(images.subrange(0, 0))) =~= model_images(records.subrange(0, 0)));
    } else {
        lemma_somes_follow(images, records, (n - 1) as nat);
        let im = images.subrange(0, n as int);
        let rs = records.subrange(0, n as int);
        assert(im.drop_last() =~= images.subrange(0, n - 1));
        assert(rs.drop_last() =~= records.subrange(0, n - 1));
        assert(opt_image_pair(images[n - 1]) == model_image(records[n - 1]));
        let front = somes(images.subrange(0, n - 1));
        match images[n - 1] {
            Some(x) => {
                assert(image_pairs(front.push(x)) =~= image_pairs(front).push(
                    (x.mime_type@, x.data@),
                ));
            },
            None => {},
        }
    }
}

/// What a read gives back of the data it reads: when the read steps answer as the
/// pasteboard data `records` holds, the content `read_content_with` returns is the
/// primary plain text (empty without one), the HTML of the first record carrying one,
/// and the first image of each record, in order.
pub proof fn lemma_read_follows_records<P, C, H, E>(
    primary_plain_text: P,
    record_count: C,
    record_html: H,
    record_entry: E,
    records: Seq<RecordModel>,
    content: ClipboardContent,
) where
    P: Fn() -> Option<String>,
    C: Fn() -> usize,
    H: Fn(usize) -> Option<String>,
    E: Fn(usize, &str) -> Option<Vec<u8>>,

    requires
        answers_follow(primary_plain_text, record_count, record_html, record_entry, records),
        exists|text: Option<String>|
            #[trigger] call_ensures(primary_plain_text, (), text) && content.plain_text@
                == text_of(text),
        exists|count: usize, images: Seq<Option<ClipboardImage>>, htmls: Seq<Option<String>>|
            {
                &&& call_ensures(record_count, (), count)
                &&& #[trigger] records_answered(record_html, record_entry, count, images, htmls)
                &&& content.images@ == somes(images)
                &&& content.html == last_html(htmls)
            },
    ensures
        content.plain_text@ == (match first_plain_text(records, 0) {
            Some(t) => t,
            None => Seq::empty(),
        }),
        opt_string_view(content.html) == first_html(records, 0),
        image_pairs(content.images@) == model_images(records),
{
    let text = choose|text: Option<String>|
        #[trigger] call_ensures(primary_plain_text, (), text) && content.plain_text@ == text_of(text);
    assert(opt_string_view(text) == first_plain_text(records, 0));
    let (count, images, htmls) = choose|
        count: usize,
        images: Seq<Option<ClipboardImage>>,
        htmls: Seq<Option<String>>,
    |
        {
            &&& call_ensures(record_count, (), count)
            &&& #[trigger] records_answered(record_html, record_entry, count, images, htmls)
            &&& content.images@ == somes(images)
            &&& content.html == last_html(htmls)
        };
    assert(count == records.len());
    // Images.
    assert forall|i: int| 0 <= i < images.len() implies opt_image_pair(#[trigger] images[i])
        == model_image(records[i]) by {
        assert(image_read(record_entry, i as usize, images[i]));
        assert(entries_follow(record_entry, i as usize, records[(i as usize) as int]));
        lemma_image_read_follows(record_entry, i as usize, images[i], records[i]);
    }
    lemma_somes_follow(images, records, images.len());
    assert(images.subrange(0, images.len() as int) =~= images);
    assert(records.subrange(0, records.len() as int) =~= records);
    // HTML.
    let l = htmls.len() as int;
    assert forall|k: int| 0 <= k < l implies opt_string_view(#[trigger] htmls[k])
        == records[k].html by {
        assert(call_ensures(record_html, (k as usize,), htmls[k]));
    }
    if l == 0 {
        assert(records.len() == 0);
    } else {
        assert forall|m: int| 0 <= m < l - 1 implies (#[trigger] records[m]).html is None by {
            assert(htmls[m] is None);
            assert(opt_string_view(htmls[m]) == records[m].html);
        }
        lemma_skip_textless(records, 0, l - 1);
        assert(opt_string_view(htmls[l - 1]) == records[l - 1].html);
        if htmls[l - 1] is None {
            assert(l == records.len());
            lemma_skip_textless(records, 0, l);
        }
    }
}

/// What a read gives back of a write: when the pasteboard holds the records a
/// complete write of `content` laid out and the read steps answer from them, the
/// content read back has the plain text of `content`, its HTML when non-empty, and its
/// images with their mime types and bytes, in order.
pub proof fn lemma_round_trip<P, C, H, E>(
    content: ClipboardContent,
    primary_plain_text: P,
    record_count: C,
    record_html: H,
    record_entry: E,
    read: ClipboardContent,
) where
    P: Fn() -> Option<String>,
    C: Fn() -> usize,
    H: Fn(usize) -> Option<String>,
    E: Fn(usize, &str) -> Option<Vec<u8>>,

    requires
        spec_plan_complete(content),
        content.images@.len() <= usize::MAX,
        answers_follow(primary_plain_text, record_count, record_html, record_entry, laid_out(content)),
        exists|text: Option<String>|
            #[trigger] call_ensures(primary_plain_text, (), text) && read.plain_text@
                == text_of(text),
        exists|count: usize, images: Seq<Option<ClipboardImage>>, htmls: Seq<Option<String>>|
            {
                &&& call_ensures(record_count, (), count)
                &&& #[trigger] records_answered(record_html, record_entry, count, images, htmls)
                &&& read.images@ == somes(images)
                &&& read.html == last_html(htmls)
            },
    ensures
        read.plain_text@ == content.plain_text@,
        opt_string_view(read.html) == (if has_html(content) {
            Some(content.html->0@)
        } else {
            None
        }),
        image_pairs(read.images@) == image_pairs(content.images@),
{
    lemma_write_then_read(content);
    lemma_read_follows_records(
        primary_plain_text,
        record_count,
        record_html,
        record_entry,
        laid_out(content),
        read,
    );
}

} // verus!
