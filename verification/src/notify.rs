//! The notification record, the two ways of deleting one, and the merge of the
//! four feeds into one collection.

use crate::json::{json_text_tree, member, parse};
use crate::wire::{
    number, numbers, push_number, push_numbers, push_text, text, Method, Pair, Reply, Request,
    RequestModel,
};
use std::collections::HashMap;
use vstd::prelude::*;

verus! {

/// Category code of a notification that someone liked a post.
pub const LIKED: u8 = 0;

/// Category code of a notification that someone replied.
pub const REPLIED: u8 = 1;

/// Category code of a notification that someone mentioned the user.
pub const MENTIONED: u8 = 2;

/// Client build number that the system endpoints are addressed with.
pub const SYSTEM_BUILD: u64 = 8140300;

/// Which wire format deletes a record.
#[derive(Clone, Copy, Debug, PartialEq, Eq, Structural)]
pub enum DeleteProtocol {
    /// The form-encoded call shared by liked, replied and mentioned records.
    Generic,
    /// The system call that names the record under `ids`.
    SystemPrimary,
    /// The system call that names the record under `station_ids`.
    SystemSecondary,
}

/// One pending notification. Its id is the key under which a collection holds
/// it. `tp` is the category code of a generic record and the subtype of a
/// system record.
#[derive(Clone, Copy, Debug, PartialEq, Eq, Structural)]
pub struct Notify {
    pub tp: u8,
    pub is_selected: bool,
    pub protocol: DeleteProtocol,
}

/// Why a feed could not be fetched.
#[derive(Clone, Copy, Debug, PartialEq, Eq, Structural)]
pub enum FetchError {
    /// The first page of the feed held no items.
    EmptyFeed,
    /// The request failed below the level of the response body.
    TransportError,
    /// The response was not JSON of the expected shape.
    ParseError,
}

/// Why a record could not be deleted. Either way the text is kept for
/// diagnosis.
#[derive(Clone, Debug, PartialEq, Eq)]
pub enum DeleteError {
    /// The request failed below the level of the response body; holds the
    /// description of the failure.
    TransportError(String),
    /// The service answered with anything but `code` zero; holds the response
    /// body as it came.
    ApiError(String),
}

/// Address of the generic deletion call.
pub open spec fn generic_delete_url() -> Seq<char> {
    "https://api.bilibili.com/x/msgfeed/del"@
}

/// Address of the system deletion call.
pub open spec fn system_delete_url() -> Seq<char> {
    "https://message.bilibili.com/x/sys-msg/del_notify_list"@
}

/// The query string of the system deletion call.
pub open spec fn system_delete_query(csrf: Seq<char>) -> Seq<crate::wire::PairModel> {
    seq![number("build"@, SYSTEM_BUILD), text("mobi_app"@, "android"@), text("csrf"@, csrf)]
}

/// The request that deletes record `id`, as its protocol tag demands: a form
/// for a generic record, a JSON object with the id under `ids` or under
/// `station_ids` (the other list empty) for a system record.
pub open spec fn delete_request(record: Notify, id: u64, csrf: Seq<char>) -> RequestModel {
    match record.protocol {
        DeleteProtocol::Generic => RequestModel {
            method: Method::PostForm,
            url: generic_delete_url(),
            query: seq![],
            body: seq![
                number("tp"@, record.tp as u64),
                number("id"@, id),
                number("build"@, 0),
                text("mobi_app"@, "web"@),
                text("csrf_token"@, csrf),
                text("csrf"@, csrf),
            ],
        },
        DeleteProtocol::SystemPrimary => RequestModel {
            method: Method::PostJson,
            url: system_delete_url(),
            query: system_delete_query(csrf),
            body: seq![
                text("csrf"@, csrf),
                numbers("ids"@, seq![id]),
                numbers("station_ids"@, seq![]),
                number("type"@, record.tp as u64),
                number("build"@, SYSTEM_BUILD),
                text("mobi_app"@, "android"@),
            ],
        },
        DeleteProtocol::SystemSecondary => RequestModel {
            method: Method::PostJson,
            url: system_delete_url(),
            query: system_delete_query(csrf),
            body: seq![
                text("csrf"@, csrf),
                numbers("ids"@, seq![]),
                numbers("station_ids"@, seq![id]),
                number("type"@, record.tp as u64),
                number("build"@, SYSTEM_BUILD),
                text("mobi_app"@, "android"@),
            ],
        },
    }
}

/// The `code` member of a response body, where the body is a JSON object that
/// has one and it is an integer.
pub open spec fn reply_code(body: Seq<char>) -> Option<i64> {
    match json_text_tree(body) {
        Some(tree) => tree.member("code"@).as_i64(),
        None => None,
    }
}

/// Whether `outcome` is what a deletion of `id` comes to when the response
/// body `body` held the code `code`: the id for code zero, else an
/// [`DeleteError::ApiError`] with the body.
pub open spec fn is_delete_outcome(
    outcome: Result<u64, DeleteError>,
    id: u64,
    code: Option<i64>,
    body: Seq<char>,
) -> bool {
    match outcome {
        Ok(deleted) => code == Some(0i64) && deleted == id,
        Err(DeleteError::ApiError(kept)) => code != Some(0i64) && kept@ == body,
        Err(DeleteError::TransportError(_)) => false,
    }
}

/// Judges a deletion by the code found in the response.
pub fn delete_outcome(id: u64, code: Option<i64>, body: &str) -> (r: Result<u64, DeleteError>)
    ensures
        is_delete_outcome(r, id, code, body@),
{
    match code {
        Some(0) => Ok(id),
        _ => Err(DeleteError::ApiError(body.to_owned())),
    }
}

/// Reads the `code` member out of a response body.
pub fn read_code(body: &str) -> (r: Option<i64>)
    ensures
        r == reply_code(body@),
{
    match parse(body) {
        Ok(root) => member(&root, "code").as_i64(),
        Err(_) => None,
    }
}

/// The four feeds laid over one another: liked first, then mentioned, then
/// replied, then system. Where two feeds hold the same id, the later one wins.
pub open spec fn merged(
    liked: Map<u64, Notify>,
    mentioned: Map<u64, Notify>,
    replied: Map<u64, Notify>,
    system: Map<u64, Notify>,
) -> Map<u64, Notify> {
    liked.union_prefer_right(mentioned).union_prefer_right(replied).union_prefer_right(system)
}

/// The failure that the merge reports: that of the first feed, in merge order,
/// that failed.
pub open spec fn first_failure(
    liked: Result<HashMap<u64, Notify>, FetchError>,
    mentioned: Result<HashMap<u64, Notify>, FetchError>,
    replied: Result<HashMap<u64, Notify>, FetchError>,
    system: Result<HashMap<u64, Notify>, FetchError>,
) -> Option<FetchError> {
    if liked is Err {
        Some(liked->Err_0)
    } else if mentioned is Err {
        Some(mentioned->Err_0)
    } else if replied is Err {
        Some(replied->Err_0)
    } else if system is Err {
        Some(system->Err_0)
    } else {
        None
    }
}

/// The merge is all or nothing: it reports a failure exactly when one of the
/// four feeds failed.
pub proof fn lemma_fetch_all_or_nothing(
    liked: Result<HashMap<u64, Notify>, FetchError>,
    mentioned: Result<HashMap<u64, Notify>, FetchError>,
    replied: Result<HashMap<u64, Notify>, FetchError>,
    system: Result<HashMap<u64, Notify>, FetchError>,
)
    ensures
        first_failure(liked, mentioned, replied, system) is None <==> liked is Ok && mentioned is Ok
            && replied is Ok && system is Ok,
{
}

/// The merge holds an id exactly when one of the feeds does, and under it the
/// record of the last feed, in the order liked, mentioned, replied, system,
/// that holds the id.
pub proof fn lemma_merge_prefers_later(
    liked: Map<u64, Notify>,
    mentioned: Map<u64, Notify>,
    replied: Map<u64, Notify>,
    system: Map<u64, Notify>,
    id: u64,
)
    ensures
        merged(liked, mentioned, replied, system).contains_key(id) <==> liked.contains_key(id)
            || mentioned.contains_key(id) || replied.contains_key(id) || system.contains_key(id),
        merged(liked, mentioned, replied, system).contains_key(id) ==> merged(
            liked,
            mentioned,
            replied,
            system,
        )[id] == if system.contains_key(id) {
            system[id]
        } else if replied.contains_key(id) {
            replied[id]
        } else if mentioned.contains_key(id) {
            mentioned[id]
        } else {
            liked[id]
        },
{
}

/// The protocol tag alone picks the wire format: a generic record is deleted by
/// a form, a system record by a JSON object that names the id under `ids`
/// (primary) or under `station_ids` (secondary) and leaves the other list
/// empty.
pub proof fn lemma_delete_protocol_selection(record: Notify, id: u64, csrf: Seq<char>)
    ensures
        record.protocol == DeleteProtocol::Generic ==> delete_request(record, id, csrf).method
            == Method::PostForm && delete_request(record, id, csrf).body[1] == number("id"@, id),
        record.protocol == DeleteProtocol::SystemPrimary ==> {
            &&& delete_request(record, id, csrf).method == Method::PostJson
            &&& delete_request(record, id, csrf).body[1] == numbers("ids"@, seq![id])
            &&& delete_request(record, id, csrf).body[2] == numbers("station_ids"@, seq![])
        },
        record.protocol == DeleteProtocol::SystemSecondary ==> {
            &&& delete_request(record, id, csrf).method == Method::PostJson
            &&& delete_request(record, id, csrf).body[1] == numbers("ids"@, seq![])
            &&& delete_request(record, id, csrf).body[2] == numbers("station_ids"@, seq![id])
        },
        forall|other: Notify|
            other.protocol == record.protocol && other.tp == record.tp ==> delete_request(
                other,
                id,
                csrf,
            ) == delete_request(record, id, csrf),
{
}

/// Lays `top` over `base`: every record of `top` is kept, and those of `base`
/// whose id `top` does not hold.
pub fn overlay(base: HashMap<u64, Notify>, top: &HashMap<u64, Notify>) -> (r: HashMap<u64, Notify>)
    ensures
        r@ == base@.union_prefer_right(top@),
{
    broadcast use vstd::std_specs::hash::group_hash_axioms;

    let mut out = base;
    let ghost start = out@;
    for pair in it: top.iter()
        invariant
            forall|k: u64| #[trigger]
                out@.contains_key(k) <==> start.contains_key(k) || exists|j: int|
                    0 <= j < it.index() && *it.seq()[j].0 == k,
            forall|k: u64| #[trigger]
                out@.contains_key(k) ==> out@[k] == if top@.contains_key(k) && exists|j: int|
                    0 <= j < it.index() && *it.seq()[j].0 == k {
                    top@[k]
                } else {
                    start[k]
                },
    {
        let (id, record) = pair;
        out.insert(*id, *record);
    }
    out
}

impl Notify {
    /// A generic record of category `tp`, not selected.
    pub fn new(tp: u8) -> (r: Notify)
        ensures
            r == (Notify { tp, is_selected: false, protocol: DeleteProtocol::Generic }),
    {
        Notify { tp, is_selected: false, protocol: DeleteProtocol::Generic }
    }

    /// A system record of subtype `tp`, not selected. `api_type` zero stands
    /// for the primary system endpoint, anything else for the secondary one.
    pub fn new_system_notify(tp: u8, api_type: u8) -> (r: Notify)
        ensures
            r == (Notify {
                tp,
                is_selected: false,
                protocol: if api_type == 0 {
                    DeleteProtocol::SystemPrimary
                } else {
                    DeleteProtocol::SystemSecondary
                },
            }),
    {
        let protocol = if api_type == 0 {
            DeleteProtocol::SystemPrimary
        } else {
            DeleteProtocol::SystemSecondary
        };
        Notify { tp, is_selected: false, protocol }
    }

    /// The request that deletes this record, held under `id`, on behalf of the
    /// session that `csrf` belongs to.
    pub fn remove_request(&self, id: u64, csrf: &str) -> (r: Request)
        ensures
            r@ == delete_request(*self, id, csrf@),
    {
        let mut query: Vec<Pair> = Vec::new();
        let mut body: Vec<Pair> = Vec::new();
        match self.protocol {
            DeleteProtocol::Generic => {
                push_number(&mut body, "tp", self.tp as u64);
                push_number(&mut body, "id", id);
                push_number(&mut body, "build", 0);
                push_text(&mut body, "mobi_app", "web");
                push_text(&mut body, "csrf_token", csrf);
                push_text(&mut body, "csrf", csrf);
                let r = Request {
                    method: Method::PostForm,
                    url: "https://api.bilibili.com/x/msgfeed/del",
                    query,
                    body,
                };
                assert(r@.query =~= delete_request(*self, id, csrf@).query);
                assert(r@.body =~= delete_request(*self, id, csrf@).body);
                r
            },
            DeleteProtocol::SystemPrimary | DeleteProtocol::SystemSecondary => {
                let mut ids: Vec<u64> = Vec::new();
                let mut station_ids: Vec<u64> = Vec::new();
                if self.protocol == DeleteProtocol::SystemPrimary {
                    ids.push(id);
                } else {
                    station_ids.push(id);
                }
                assert(ids@ =~= if self.protocol == DeleteProtocol::SystemPrimary {
                    seq![id]
                } else {
                    seq![]
                });
                assert(station_ids@ =~= if self.protocol == DeleteProtocol::SystemPrimary {
                    seq![]
                } else {
                    seq![id]
                });
                push_number(&mut query, "build", SYSTEM_BUILD);
                push_text(&mut query, "mobi_app", "android");
                push_text(&mut query, "csrf", csrf);
                push_text(&mut body, "csrf", csrf);
                push_numbers(&mut body, "ids", ids);
                push_numbers(&mut body, "station_ids", station_ids);
                push_number(&mut body, "type", self.tp as u64);
                push_number(&mut body, "build", SYSTEM_BUILD);
                push_text(&mut body, "mobi_app", "android");
                let r = Request {
                    method: Method::PostJson,
                    url: "https://message.bilibili.com/x/sys-msg/del_notify_list",
                    query,
                    body,
                };
                assert(r@.query =~= delete_request(*self, id, csrf@).query);
                assert(r@.body =~= delete_request(*self, id, csrf@).body);
                r
            },
        }
    }

    /// What the deletion of this record, held under `id`, came to, given the
    /// reply to [`Notify::remove_request`]. The id comes back exactly when the
    /// reply is a body whose `code` is zero. A failed call gives a
    /// [`DeleteError::TransportError`] with its description, any other body a
    /// [`DeleteError::ApiError`] with the body.
    pub fn remove(&self, id: u64, reply: &Reply) -> (r: Result<u64, DeleteError>)
        ensures
            match *reply {
                Reply::Body(body) => is_delete_outcome(r, id, reply_code(body@), body@),
                Reply::Failed(reason) => r matches Err(DeleteError::TransportError(kept))
                    && kept@ == reason@,
            },
    {
        match reply {
            Reply::Body(body) => {
                let code = read_code(body.as_str());
                delete_outcome(id, code, body.as_str())
            },
            Reply::Failed(reason) => Err(DeleteError::TransportError(reason.clone())),
        }
    }

    /// Joins the outcomes of the four feeds. All or nothing: the merged
    /// collection where all four succeeded, else the failure of the first feed
    /// that failed, in the order liked, mentioned, replied, system.
    pub fn fetch(
        liked: Result<HashMap<u64, Notify>, FetchError>,
        ated: Result<HashMap<u64, Notify>, FetchError>,
        replyed: Result<HashMap<u64, Notify>, FetchError>,
        system: Result<HashMap<u64, Notify>, FetchError>,
    ) -> (r: Result<HashMap<u64, Notify>, FetchError>)
        ensures
            match first_failure(liked, ated, replyed, system) {
                Some(failure) => r == Err::<HashMap<u64, Notify>, FetchError>(failure),
                None => r matches Ok(all) && all@ == merged(
                    liked->Ok_0@,
                    ated->Ok_0@,
                    replyed->Ok_0@,
                    system->Ok_0@,
                ),
            },
    {
        let liked = match liked {
            Ok(records) => records,
            Err(failure) => return Err(failure),
        };
        let ated = match ated {
            Ok(records) => records,
            Err(failure) => return Err(failure),
        };
        let replyed = match replyed {
            Ok(records) => records,
            Err(failure) => return Err(failure),
        };
        let system = match system {
            Ok(records) => records,
            Err(failure) => return Err(failure),
        };
        let all = overlay(liked, &ated);
        let all = overlay(all, &replyed);
        let all = overlay(all, &system);
        Ok(all)
    }
}

} // verus!
