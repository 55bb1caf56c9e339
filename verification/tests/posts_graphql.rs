use social_api::clock::Timestamp;
use social_api::graphql::dataloader::{
    likes_by_key, posts_by_id, users_by_id, users_by_username, HasLikeInput, Like,
};
use social_api::graphql::post::{
    like_lookup_key, NotSignedIn, PostActionCommand, PostsMutation, PostsQuery,
};
use social_api::graphql::query::Query as UserLookup;
use social_api::graphql::user::{UserAction, UserActionCommand, UserActionError, UserQuery};
use social_api::graphql::{Mutation, Query};
use social_api::handlers::file::{
    entry_extension, find_resource, listing_ready, not_found_reply, read_failed_reply,
    resource_location, storage_dir, DirEntryInfo,
};
use social_api::handlers::posts::{
    create_post_reply, is_allowed_media_type, media_paths, plan_uploads, store_media,
    uploads_ready, UploadInfo,
};
use social_api::jwt_auth::{issue_token, TokenError};
use social_api::model::auth::User;
use social_api::model::post::{
    filter_post, Post, PostAction, PostInput, UserToPost, UserToPostAction, UserToUser,
    UserToUserAction,
};
use social_api::reply::ReplyBody;

const ID: u128 = 0x67e5_5044_10b1_426f_9247_bb68_0e5f_e0c8;
const OTHER: u128 = 0x550e_8400_e29b_41d4_a716_4466_5544_0000;

fn utc_now_secs() -> i64 {
    std::time::SystemTime::now().duration_since(std::time::UNIX_EPOCH).unwrap().as_secs() as i64
}

fn uuid_to_string(id: u128) -> String {
    social_api::model::auth::filter_user(user(id, "", "")).id
}

fn post(id: i64, content: &str) -> Post {
    Post {
        id,
        author_id: ID,
        content: content.to_string(),
        image_links: Some(vec!["image/a.png".to_string()]),
        video_links: None,
        created_at: Some(Timestamp { secs: 60, nanos: 0 }),
        updated_at: None,
    }
}

fn user(id: u128, username: &str, name: &str) -> User {
    User {
        id,
        username: username.to_string(),
        name: name.to_string(),
        email: format!("{username}@example.com"),
        photo: None,
        password: "h".to_string(),
        created_at: None,
        updated_at: None,
    }
}

fn entry(is_file: bool, name: &str) -> DirEntryInfo {
    DirEntryInfo { readable: true, is_file, file_name: Some(name.to_string()) }
}

#[test]
fn file_lookup_matches_name_before_first_dot() {
    assert_eq!(storage_dir("image"), "./storage/image");
    assert_eq!(entry_extension(&entry(true, "abc.png"), "abc").as_deref(), Some("png"));
    assert_eq!(entry_extension(&entry(true, "abc.tar.gz"), "abc").as_deref(), Some("gz"));
    assert_eq!(entry_extension(&entry(true, "abcd.png"), "abc"), None);
    assert_eq!(entry_extension(&entry(false, "abc.png"), "abc"), None);
    assert_eq!(entry_extension(&DirEntryInfo { readable: true, is_file: false, file_name: None }, "abc"), None);
}

#[test]
fn file_location_and_replies() {
    let (path, mime) = resource_location("video", "abc", "mp4");
    assert_eq!(path, "./storage/video/abc.mp4");
    assert_eq!(mime, "video/mp4");
    let nf = not_found_reply();
    assert_eq!(nf.status, 404);
    assert!(matches!(nf.body, ReplyBody::Message(ref m) if m == "Resource not found"));
    let rf = read_failed_reply();
    assert_eq!(rf.status, 500);
    assert!(matches!(rf.body, ReplyBody::Message(ref m) if m == "An internal error occured"));
}

#[test]
fn media_paths_place_uploads() {
    let m = media_paths("image", ID, "holiday.photo.jpg").unwrap();
    assert_eq!(m.path, "./storage/image/67e55044-10b1-426f-9247-bb680e5fe0c8.jpg");
    assert_eq!(m.link, "image/67e55044-10b1-426f-9247-bb680e5fe0c8.jpg");
    let v = media_paths("video", ID, "clip").unwrap();
    assert_eq!(v.link, "video/67e55044-10b1-426f-9247-bb680e5fe0c8.clip");
}

#[test]
fn media_paths_refuse_other_types() {
    let r = media_paths("application", ID, "x.pdf").unwrap_err();
    assert_eq!(r.status, 400);
    assert!(matches!(r.body, ReplyBody::Message(ref m) if m == "Unsupported content type: application"));
    assert!(store_media("text", None).is_err());
    assert!(is_allowed_media_type("image") && is_allowed_media_type("video"));
    assert!(!is_allowed_media_type("Image") && !is_allowed_media_type(""));
}

#[test]
fn store_media_uses_a_fresh_identifier() {
    let a = store_media("image", Some("a.png")).unwrap();
    let b = store_media("image", Some("a.png")).unwrap();
    assert_ne!(a.link, b.link);
    assert_eq!(format!("./storage/{}", a.link), a.path);
    assert!(a.link.starts_with("image/") && a.link.ends_with(".png"));
}

#[test]
fn create_post_reply_outcomes() {
    let ok = create_post_reply(Ok(post(1, "hi")));
    assert_eq!(ok.status, 200);
    assert!(matches!(ok.body, ReplyBody::Post(ref p) if p.id == 1));
    let err = create_post_reply(Err("boom".to_string()));
    assert_eq!(err.status, 500);
    assert!(matches!(err.body, ReplyBody::Message(ref m) if m == "An internal error occured"));
}

#[test]
fn filtered_post_fields() {
    let f = filter_post(post(7, "hello"));
    assert_eq!(f.id, 7);
    assert_eq!(f.author_id, uuid_to_string(ID));
    assert_eq!(f.author_uuid, ID);
    assert_eq!(f.content, "hello");
    assert_eq!(f.image_links, Some(vec!["image/a.png".to_string()]));
    assert_eq!(f.created_at.as_deref(), Some("1970-01-01 00:01:00 UTC"));
}

#[test]
fn get_posts_pages_by_twenty() {
    let q = PostsQuery;
    assert_eq!(q.get_posts_offset(0), 0);
    assert_eq!(q.get_posts_offset(3), 60);
    let out = q.get_posts(vec![post(1, "a"), post(2, "b")]);
    assert_eq!(out.iter().map(|p| p.id).collect::<Vec<_>>(), vec![1, 2]);
    let _root = Query(UserQuery, PostsQuery);
    let _mutation = Mutation(PostsMutation);
}

#[test]
fn create_post_row_needs_a_user() {
    let m = PostsMutation;
    let input = PostInput { content: "x".to_string(), image_links: None, video_links: Some(vec!["v".to_string()]) };
    let row = m.create_post_row(Some(ID), input.clone()).unwrap();
    assert_eq!(row.author_id, ID);
    assert_eq!(row.content, "x");
    assert_eq!(row.video_links, Some(vec!["v".to_string()]));
    assert_eq!(m.create_post_row(None, input).err(), Some(NotSignedIn));
}

#[test]
fn post_action_commands() {
    let m = PostsMutation;
    assert_eq!(
        m.post_action_command(ID, 5, PostAction::Like),
        PostActionCommand::AddLike(UserToPost { user_id: ID, post_id: 5, action: UserToPostAction::Like })
    );
    assert_eq!(
        m.post_action_command(ID, 5, PostAction::RemoveLike),
        PostActionCommand::RemoveLike { user_id: ID, post_id: 5 }
    );
    let (_, token) = issue_token(ID, utc_now_secs(), "s");
    assert_eq!(
        m.post_action(token, &"s".to_string(), 9, PostAction::Like),
        Ok(PostActionCommand::AddLike(UserToPost { user_id: ID, post_id: 9, action: UserToPostAction::Like }))
    );
    assert_eq!(m.post_action("bad".to_string(), &"s".to_string(), 9, PostAction::Like), Err(TokenError::Rejected));
}

#[test]
fn like_lookup_key_parses_the_user() {
    assert_eq!(
        like_lookup_key(3, "550e8400-e29b-41d4-a716-446655440000"),
        Some(HasLikeInput { user_id: OTHER, post_id: 3 })
    );
    assert_eq!(like_lookup_key(3, "nobody"), None);
}

#[test]
fn user_action_commands() {
    let q = UserQuery;
    let target = uuid_to_string(OTHER);
    assert_eq!(
        q.user_action(Some(ID), &target, UserAction::Follow),
        Ok(UserActionCommand::Insert(UserToUser { from_user_id: ID, to_user_id: OTHER, action: UserToUserAction::Follow }))
    );
    assert_eq!(
        q.user_action(Some(ID), &target, UserAction::Unfollow),
        Ok(UserActionCommand::Delete(UserToUser { from_user_id: ID, to_user_id: OTHER, action: UserToUserAction::Follow }))
    );
    assert_eq!(
        q.user_action(Some(ID), &target, UserAction::Mute),
        Ok(UserActionCommand::Insert(UserToUser { from_user_id: ID, to_user_id: OTHER, action: UserToUserAction::Mute }))
    );
    assert_eq!(
        q.user_action(Some(ID), &target, UserAction::Unmute),
        Ok(UserActionCommand::Delete(UserToUser { from_user_id: ID, to_user_id: OTHER, action: UserToUserAction::Mute }))
    );
}

#[test]
fn user_action_refusals() {
    let q = UserQuery;
    let own = uuid_to_string(ID);
    assert_eq!(q.user_action(None, &own, UserAction::Follow), Err(UserActionError::NotSignedIn));
    assert_eq!(q.user_action(Some(ID), &own, UserAction::Follow), Err(UserActionError::SelfTarget));
    assert_eq!(q.user_action(Some(ID), &format!("  {own}\n"), UserAction::Mute), Err(UserActionError::SelfTarget));
    assert_eq!(q.user_action(Some(ID), "bob", UserAction::Follow), Err(UserActionError::InvalidUserId));
    // Untrimmed text must itself read as a UUID.
    let padded = format!(" {}", uuid_to_string(OTHER));
    assert_eq!(q.user_action(Some(ID), &padded, UserAction::Follow), Err(UserActionError::InvalidUserId));
}

#[test]
fn user_action_self_check_is_textual() {
    // The caller's own identifier in upper case is not refused as a self-target.
    let upper = uuid_to_string(ID).to_uppercase();
    assert_eq!(
        UserQuery.user_action(Some(ID), &upper, UserAction::Follow),
        Ok(UserActionCommand::Insert(UserToUser { from_user_id: ID, to_user_id: ID, action: UserToUserAction::Follow }))
    );
}

#[test]
fn account_lookups_show_the_account() {
    let f = UserQuery.get_user(Some(user(ID, "alice", "Alice"))).unwrap();
    assert_eq!(f.username, "alice");
    assert_eq!(f.id, uuid_to_string(ID));
    assert!(UserQuery.get_user(None).is_none());
    assert!(UserLookup.user(None).is_none());
    assert_eq!(UserLookup.user(Some(user(OTHER, "bob", "Bob"))).unwrap().name, "Bob");
}

#[test]
fn loaders_keep_the_last_row_of_each_key() {
    let rows = vec![user(ID, "alice", "first"), user(OTHER, "bob", "Bob"), user(ID, "alice", "second")];
    let by_name = users_by_username(rows.clone());
    assert_eq!(by_name.len(), 2);
    assert_eq!(by_name.iter().find(|u| u.username == "alice").unwrap().name, "second");
    let by_id = users_by_id(rows);
    assert_eq!(by_id.len(), 2);
    assert_eq!(by_id.iter().find(|u| u.id == ID).unwrap().name, "second");
    assert!(users_by_id(vec![]).is_empty());
}

#[test]
fn post_and_like_loaders() {
    let posts = posts_by_id(vec![post(1, "old"), post(2, "b"), post(1, "new")]);
    assert_eq!(posts.len(), 2);
    assert_eq!(posts.iter().find(|p| p.id == 1).unwrap().content, "new");
    let likes = likes_by_key(vec![
        Like { user_id: ID, post_id: 1 },
        Like { user_id: ID, post_id: 1 },
        Like { user_id: OTHER, post_id: 1 },
    ]);
    assert_eq!(likes.len(), 2);
    assert!(likes.contains(&HasLikeInput { user_id: ID, post_id: 1 }));
    assert!(likes.contains(&HasLikeInput { user_id: OTHER, post_id: 1 }));
}

#[test]
fn find_resource_takes_the_first_match_in_listing_order() {
    let entries = vec![
        entry(false, "abc.dir"),
        entry(true, "other.png"),
        entry(true, "abc.jpg"),
        entry(true, "abc.png"),
    ];
    assert!(listing_ready(&entries, "abc"));
    let (path, mime) = find_resource(&entries, "image", "abc").unwrap();
    assert_eq!(path, "./storage/image/abc.jpg");
    assert_eq!(mime, "image/jpg");
}

#[test]
fn find_resource_answers_404_without_a_match() {
    let entries = vec![entry(true, "x.png"), entry(false, "abc.png")];
    let r = find_resource(&entries, "image", "abc").unwrap_err();
    assert_eq!(r.status, 404);
    assert!(matches!(r.body, ReplyBody::Message(ref m) if m == "Resource not found"));
    assert!(find_resource(&vec![], "video", "abc").is_err());
}

#[test]
fn listing_readiness_stops_at_the_match() {
    let unnamed = DirEntryInfo { readable: true, is_file: true, file_name: None };
    assert!(!listing_ready(&vec![unnamed.clone()], "abc"));
    assert!(listing_ready(&vec![entry(true, "abc.png"), unnamed.clone()], "abc"));
    assert!(!listing_ready(&vec![entry(true, "abc")], "abc"));
    assert!(listing_ready(&vec![DirEntryInfo { readable: true, is_file: false, file_name: None }], "abc"));
}

fn upload(t: Option<&str>, name: Option<&str>) -> UploadInfo {
    UploadInfo { media_type: t.map(String::from), file_name: name.map(String::from) }
}

#[test]
fn plan_uploads_keeps_accepted_media_in_order() {
    let uploads = vec![upload(Some("image"), Some("a.png")), upload(Some("video"), Some("b.clip.mp4"))];
    assert!(uploads_ready(&uploads));
    let plan = plan_uploads(&uploads);
    assert!(plan.refusal.is_none());
    assert_eq!(plan.stored.len(), 2);
    assert!(plan.stored[0].link.starts_with("image/") && plan.stored[0].link.ends_with(".png"));
    assert!(plan.stored[1].link.starts_with("video/") && plan.stored[1].link.ends_with(".mp4"));
    for m in &plan.stored {
        assert_eq!(format!("./storage/{}", m.link), m.path);
    }
}

#[test]
fn plan_uploads_stops_at_the_first_refusal() {
    let uploads = vec![
        upload(Some("image"), Some("a.png")),
        upload(Some("audio"), Some("b.mp3")),
        upload(None, None),
    ];
    assert!(uploads_ready(&uploads));
    let plan = plan_uploads(&uploads);
    assert_eq!(plan.stored.len(), 1);
    let refusal = plan.refusal.unwrap();
    assert_eq!(refusal.status, 400);
    assert!(matches!(refusal.body, ReplyBody::Message(ref m) if m == "Unsupported content type: audio"));
}

#[test]
fn uploads_readiness() {
    assert!(!uploads_ready(&vec![upload(None, Some("a.png"))]));
    assert!(!uploads_ready(&vec![upload(Some("image"), None)]));
    assert!(uploads_ready(&vec![upload(Some("text"), None)]));
    assert!(uploads_ready(&vec![]));
}

#[test]
fn padded_own_id_is_refused() {
    let own = format!(" {} ", "67e55044-10b1-426f-9247-bb680e5fe0c8");
    assert_eq!(UserQuery.user_action(Some(ID), &own, UserAction::Follow), Err(UserActionError::SelfTarget));
    let ideographic = format!("\u{3000}{}\t", "67e55044-10b1-426f-9247-bb680e5fe0c8");
    assert_eq!(UserQuery.user_action(Some(ID), &ideographic, UserAction::Mute), Err(UserActionError::SelfTarget));
}

#[test]
fn post_action_outcome_follows_the_validation_outcome() {
    let m = PostsMutation;
    assert_eq!(
        m.post_action_outcome(Ok(ID), 7, PostAction::Like),
        Ok(PostActionCommand::AddLike(UserToPost { user_id: ID, post_id: 7, action: UserToPostAction::Like }))
    );
    assert_eq!(m.post_action_outcome(Err(TokenError::Rejected), 7, PostAction::Like), Err(TokenError::Rejected));
    assert_eq!(
        m.post_action_outcome(Err(TokenError::InvalidSubject), 7, PostAction::RemoveLike),
        Err(TokenError::InvalidSubject)
    );
}

fn unreadable() -> DirEntryInfo {
    DirEntryInfo { readable: false, is_file: false, file_name: None }
}

#[test]
fn unreadable_entry_matters_only_before_the_match() {
    let after = vec![entry(true, "abc.gif"), unreadable()];
    assert!(listing_ready(&after, "abc"));
    assert_eq!(find_resource(&after, "image", "abc").unwrap().0, "./storage/image/abc.gif");
    assert!(!listing_ready(&vec![unreadable(), entry(true, "abc.gif")], "abc"));
}

#[test]
fn lookup_ignores_other_entries() {
    let first = vec![entry(true, "x.png"), entry(true, "abc.webp"), entry(true, "abc.png")];
    let second = vec![entry(false, "abc.bmp"), entry(true, "abc.webp"), entry(true, "y.txt"), entry(true, "abc.png")];
    assert_eq!(find_resource(&first, "image", "abc").unwrap(), find_resource(&second, "image", "abc").unwrap());
}
