//! Creating a post with uploaded media: `POST /post/create`.

use vstd::prelude::*;

use crate::ids::{is_v4, new_uuid_v4, uuid_text, uuid_to_string, UserId};
use crate::model::post::Post;
use crate::reply::{is_message, message_reply, Reply, ReplyBody};
use crate::text::{last_segment, last_segment_of, text_eq};

verus! {

/// Uploads are accepted of these top-level media types only.
pub open spec fn media_type_allowed(t: Seq<char>) -> bool {
    t == "image"@ || t == "video"@
}

/// Where an upload is kept and the link stored with the post.
#[derive(Clone, Debug)]
pub struct StoredMedia {
    /// `./storage/{type}/{id}.{ext}`
    pub path: String,
    /// `{type}/{id}.{ext}`: the path without `./storage/`.
    pub link: String,
}

/// The place of an upload of media type `t`, stored as `id`, whose file name
/// ends in `.{ext}` (the last dot-separated piece of the name).
pub open spec fn media_place(t: Seq<char>, id: UserId, file_name: Seq<char>) -> Seq<char> {
    t + "/"@ + uuid_text(id) + "."@ + last_segment(file_name)
}

/// The answer refusing an upload of media type `t`.
pub open spec fn unsupported_type(r: Reply, t: Seq<char>) -> bool {
    is_message(r, 400, "Unsupported content type: "@ + t)
}

/// Whether uploads of media type `t` are accepted.
pub fn is_allowed_media_type(t: &str) -> (r: bool)
    ensures
        r == media_type_allowed(t@),
{
    proof {
        reveal_strlit("image");
        reveal_strlit("video");
    }
    text_eq(t, "image") || text_eq(t, "video")
}

/// The answer refusing an upload of media type `t`.
fn unsupported_type_reply(t: &str) -> (r: Reply)
    ensures
        unsupported_type(r, t@),
{
    let text = String::from_str("Unsupported content type: ").concat(t);
    Reply { status: 400, body: ReplyBody::Message(text), cookie: None }
}

/// Decides on one upload, given the identifier it is to be stored under.
pub fn media_paths(media_type: &str, id: UserId, file_name: &str) -> (r: Result<StoredMedia, Reply>)
    ensures
        !media_type_allowed(media_type@) ==> (r matches Err(rep) && unsupported_type(rep, media_type@)),
        media_type_allowed(media_type@) ==> (r matches Ok(m) && m.link@ == media_place(media_type@, id, file_name@)
            && m.path@ == "./storage/"@ + m.link@),
{
    if !is_allowed_media_type(media_type) {
        return Err(unsupported_type_reply(media_type));
    }
    let ext = last_segment_of(file_name);
    let id_text = uuid_to_string(id);
    let path = String::from_str("./storage/").concat(media_type).concat("/").concat(id_text.as_str()).concat(
        ".",
    ).concat(ext.as_str());
    proof {
        reveal_strlit("./storage/");
    }
    let n = path.as_str().unicode_len();
    let link = String::from_str(path.as_str().substring_char(10, n));
    assert(link@ =~= media_place(media_type@, id, file_name@));
    Ok(StoredMedia { path, link })
}

/// `m` keeps an upload of type `t` named `file_name` under some random
/// (version 4) identifier.
pub open spec fn stored_as(m: StoredMedia, t: Seq<char>, file_name: Seq<char>) -> bool {
    &&& exists|id: UserId| is_v4(id) && m.link@ == #[trigger] media_place(t, id, file_name)
    &&& m.path@ == "./storage/"@ + m.link@
}

/// Decides on one upload: refused for other media types, else stored under
/// a fresh random identifier. An accepted upload must carry a file name
/// (the service panics on one without).
pub fn store_media(media_type: &str, file_name: Option<&str>) -> (r: Result<StoredMedia, Reply>)
    requires
        media_type_allowed(media_type@) ==> file_name is Some,
    ensures
        !media_type_allowed(media_type@) ==> (r matches Err(rep) && unsupported_type(rep, media_type@)),
        media_type_allowed(media_type@) ==> (r matches Ok(m) && stored_as(m, media_type@, file_name->Some_0@)),
{
    if !is_allowed_media_type(media_type) {
        return Err(unsupported_type_reply(media_type));
    }
    let name = match file_name {
        Some(n) => n,
        None => {
            proof {
                assert(false);
            }
            ""
        },
    };
    let id = new_uuid_v4();
    media_paths(media_type, id, name)
}

/// One upload of a post: its top-level media type and its file name, where
/// the request gives them.
#[derive(Clone, Debug)]
pub struct UploadInfo {
    pub media_type: Option<String>,
    pub file_name: Option<String>,
}

/// The upload names an accepted media type.
pub open spec fn accepted_type(t: Option<String>) -> bool {
    t matches Some(t) && media_type_allowed(t@)
}

/// The uploads before `i` are all of accepted types, so upload `i` is looked at.
pub open spec fn upload_reached(uploads: Seq<UploadInfo>, i: int) -> bool {
    forall|j: int| 0 <= j < i ==> accepted_type((#[trigger] uploads[j]).media_type)
}

/// Every upload that is looked at can be handled without a panic: it names
/// a media type, and an accepted one has a file name.
pub open spec fn uploads_ready_spec(uploads: Seq<UploadInfo>) -> bool {
    forall|i: int|
        0 <= i < uploads.len() && upload_reached(uploads, i) ==> {
            &&& (#[trigger] uploads[i]).media_type is Some
            &&& media_type_allowed(uploads[i].media_type->Some_0@) ==> uploads[i].file_name is Some
        }
}

/// Whether the uploads can be handled without a panic.
pub fn uploads_ready(uploads: &Vec<UploadInfo>) -> (r: bool)
    ensures
        r == uploads_ready_spec(uploads@),
{
    let n = uploads.len();
    let mut i: usize = 0;
    while i < n
        invariant
            n == uploads@.len(),
            i <= n,
            upload_reached(uploads@, i as int),
            forall|k: int| 0 <= k < i ==> {
                &&& (#[trigger] uploads@[k]).media_type is Some
                &&& media_type_allowed(uploads@[k].media_type->Some_0@) ==> uploads@[k].file_name is Some
            },
        decreases n - i,
    {
        let u = &uploads[i];
        match &u.media_type {
            None => {
                assert(!uploads_ready_spec(uploads@)) by {
                    assert(upload_reached(uploads@, i as int));
                }
                return false;
            },
            Some(t) => {
                if is_allowed_media_type(t.as_str()) {
                    if u.file_name.is_none() {
                        assert(!uploads_ready_spec(uploads@)) by {
                            assert(upload_reached(uploads@, i as int));
                        }
                        return false;
                    }
                } else {
                    assert forall|k: int| 0 <= k < uploads@.len() && upload_reached(uploads@, k) implies {
                        &&& (#[trigger] uploads@[k]).media_type is Some
                        &&& media_type_allowed(uploads@[k].media_type->Some_0@) ==> uploads@[k].file_name is Some
                    } by {
                        if k > i {
                            assert(accepted_type(uploads@[i as int].media_type));
                        }
                    }
                    return true;
                }
            },
        }
        i = i + 1;
    }
    true
}

/// What the uploads of a post come to: the media kept, in order, up to the
/// first upload of a type that is not accepted, and the refusal of that one.
#[derive(Clone, Debug)]
pub struct UploadPlan {
    pub stored: Vec<StoredMedia>,
    pub refusal: Option<Reply>,
}

/// Decides on the uploads of a post one by one: each accepted one is kept
/// under a fresh identifier; the first refused one ends the walk with its
/// refusal.
pub fn plan_uploads(uploads: &Vec<UploadInfo>) -> (r: UploadPlan)
    requires
        uploads_ready_spec(uploads@),
    ensures
        r.stored.len() <= uploads.len(),
        forall|j: int|
            0 <= j < r.stored.len() ==> {
                &&& accepted_type((#[trigger] uploads@[j]).media_type)
                &&& stored_as(r.stored@[j], uploads@[j].media_type->Some_0@, uploads@[j].file_name->Some_0@)
            },
        r.refusal is None ==> r.stored.len() == uploads.len(),
        r.refusal matches Some(rep) ==> (r.stored.len() < uploads.len() && uploads@[r.stored.len() as int].media_type is Some
            && !media_type_allowed(uploads@[r.stored.len() as int].media_type->Some_0@)
            && unsupported_type(rep, uploads@[r.stored.len() as int].media_type->Some_0@)),
{
    let n = uploads.len();
    let mut stored: Vec<StoredMedia> = Vec::new();
    let mut i: usize = 0;
    while i < n
        invariant
            n == uploads@.len(),
            i <= n,
            stored.len() == i,
            uploads_ready_spec(uploads@),
            upload_reached(uploads@, i as int),
            forall|j: int|
                0 <= j < i ==> stored_as(stored@[j], (#[trigger] uploads@[j]).media_type->Some_0@, uploads@[j].file_name->Some_0@),
        decreases n - i,
    {
        let u = &uploads[i];
        assert(uploads@[i as int].media_type is Some);
        let t = match &u.media_type {
            Some(t) => t.as_str(),
            None => "",
        };
        let name = match &u.file_name {
            Some(f) => Some(f.as_str()),
            None => None,
        };
        match store_media(t, name) {
            Err(rep) => {
                return UploadPlan { stored, refusal: Some(rep) };
            },
            Ok(m) => {
                stored.push(m);
                assert(upload_reached(uploads@, i + 1)) by {
                    assert forall|j: int| 0 <= j < i + 1 implies accepted_type((#[trigger] uploads@[j]).media_type) by {
                        if j < i {
                            assert(upload_reached(uploads@, i as int));
                        }
                    }
                }
            },
        }
        i = i + 1;
    }
    UploadPlan { stored, refusal: None }
}

/// The answer after the post is inserted: the post, or a generic failure.
pub fn create_post_reply(inserted: Result<Post, String>) -> (r: Reply)
    ensures
        match inserted {
            Ok(p) => r.status == 200 && r.body == ReplyBody::Post(p) && r.cookie is None,
            Err(_) => is_message(r, 500, "An internal error occured"@),
        },
{
    match inserted {
        Ok(p) => Reply { status: 200, body: ReplyBody::Post(p), cookie: None },
        Err(_) => message_reply(500, "An internal error occured"),
    }
}

} // verus!
