//! The messages that the work outside ends in.
//!
//! Each function takes what a command's work gave, or nothing where the work
//! failed, and makes the message for the next step.

use vstd::prelude::*;
use super::{
    AuthFailed, Authorized, AvatarRetrieved, CoverRetrieved, ListRetrieved, MediaUpdateComplete,
    Message, NoMessage, SearchResults, UserFound,
};
use crate::anilist::models::MediaListCollection;
use crate::anilist::request::{
    MediaListCollectionResponse, QueryResponse, SaveMediaListEntryResponse, SearchResponse,
    ViewerResponse,
};

verus! {

/// The data of an answer, where there is an answer with data.
pub fn data_of<R>(answer: Option<QueryResponse<R>>) -> (r: Option<R>)
    ensures
        r == (match answer {
            Some(answer) => answer.data,
            None => None,
        }),
{
    match answer {
        Some(answer) => answer.data,
        None => None,
    }
}

/// The end of `QueryUser`: the user that the service names, or nothing.
pub fn viewer_answered(answer: Option<QueryResponse<ViewerResponse>>) -> (r: Message)
    ensures
        r == (match answer {
            Some(QueryResponse { data: Some(ViewerResponse { viewer: Some(user) }), .. }) => Message::UserFound(
                UserFound(user),
            ),
            _ => Message::NoMessage(NoMessage),
        }),
{
    match data_of(answer) {
        Some(found) => match found.viewer {
            Some(user) => Message::UserFound(UserFound(user)),
            None => Message::NoMessage(NoMessage),
        },
        None => Message::NoMessage(NoMessage),
    }
}

/// The lists of an answer, where there is an answer with lists.
pub fn lists_of(answer: Option<QueryResponse<MediaListCollectionResponse>>) -> (r: Option<MediaListCollection>)
    ensures
        r == (match answer {
            Some(QueryResponse { data: Some(found), .. }) => found.media_list_collection,
            _ => None,
        }),
{
    match data_of(answer) {
        Some(found) => found.media_list_collection,
        None => None,
    }
}

/// The end of `QueryUserLists`: the lists of both categories, as far as
/// they were answered.
pub fn lists_answered(
    anime: Option<QueryResponse<MediaListCollectionResponse>>,
    manga: Option<QueryResponse<MediaListCollectionResponse>>,
) -> (r: Message)
    ensures
        r == Message::ListRetrieved(
            ListRetrieved {
                anime_list: match anime {
                    Some(QueryResponse { data: Some(found), .. }) => found.media_list_collection,
                    _ => None,
                },
                manga_list: match manga {
                    Some(QueryResponse { data: Some(found), .. }) => found.media_list_collection,
                    _ => None,
                },
            },
        ),
{
    Message::ListRetrieved(ListRetrieved { anime_list: lists_of(anime), manga_list: lists_of(manga) })
}

/// The end of `QuerySearch`: the results of the search, or nothing.
pub fn search_answered(answer: Option<QueryResponse<SearchResponse>>, oneshot: bool) -> (r: Message)
    ensures
        r == (match answer {
            Some(QueryResponse { data: Some(found), .. }) => match found.page.media {
                Some(results) => Message::SearchResults(SearchResults(results, oneshot)),
                None => Message::NoMessage(NoMessage),
            },
            _ => Message::NoMessage(NoMessage),
        }),
{
    match data_of(answer) {
        Some(found) => match found.page.media {
            Some(results) => Message::SearchResults(SearchResults(results, oneshot)),
            None => Message::NoMessage(NoMessage),
        },
        None => Message::NoMessage(NoMessage),
    }
}

/// The end of `Authorize`: the token of the login, or its failure.
pub fn login_ended(token: Option<String>) -> (r: Message)
    ensures
        r == (match token {
            Some(token) => Message::Authorized(Authorized(token)),
            None => Message::AuthFailed(AuthFailed),
        }),
{
    match token {
        Some(token) => Message::Authorized(Authorized(token)),
        None => Message::AuthFailed(AuthFailed),
    }
}

/// The end of `FetchAvatar`: the avatar, or nothing.
pub fn avatar_fetched(bytes: Option<Vec<u8>>) -> (r: Message)
    ensures
        r == (match bytes {
            Some(bytes) => Message::AvatarRetrieved(AvatarRetrieved(bytes)),
            None => Message::NoMessage(NoMessage),
        }),
{
    match bytes {
        Some(bytes) => Message::AvatarRetrieved(AvatarRetrieved(bytes)),
        None => Message::NoMessage(NoMessage),
    }
}

/// The end of `FetchCover`: the cover, or none.
pub fn cover_fetched(bytes: Option<Vec<u8>>) -> (r: Message)
    ensures
        r == Message::CoverRetrieved(CoverRetrieved(bytes)),
{
    Message::CoverRetrieved(CoverRetrieved(bytes))
}

/// The end of `UpdateMedia`, whether the service took the update or not:
/// an update that failed is not sent again.
pub fn update_answered(answer: Option<QueryResponse<SaveMediaListEntryResponse>>) -> (r: Message)
    ensures
        r == Message::MediaUpdateComplete(MediaUpdateComplete),
{
    Message::MediaUpdateComplete(MediaUpdateComplete)
}

} // verus!
