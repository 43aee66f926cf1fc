//! Venue submission and review, as decisions: who may review, which requests
//! are well-formed, and what is to be written to the store.

use vstd::prelude::*;
use crate::identity::User;
use crate::roles::UserRole;
use crate::text::{chars_of, str_equals, trim, trimmed};
use crate::token::text_view;

verus! {

/// Where a venue stands in the review.
#[derive(Clone, Copy, Debug, PartialEq, Eq, Structural)]
pub enum VenueStatus {
    Pending,
    Approved,
    Rejected,
}

/// What an administrator sends with an approval or a rejection.
pub struct VenueActionRequest {
    pub admin_notes: Option<String>,
}

/// What is sent to set a venue's status.
pub struct UpdateVenueStatusRequest {
    pub status: String,
    pub admin_notes: Option<String>,
}

/// The outcome of a review, to be written to the venue.
#[derive(Debug)]
pub struct VenueReview {
    pub status: VenueStatus,
    pub admin_notes: Option<String>,
    /// Identifier of the administrator who decided.
    pub reviewed_by: String,
    /// Seconds since the Unix epoch.
    pub reviewed_at: u64,
}

/// Which venues a listing shows.
#[derive(Clone, Copy, Debug, PartialEq, Eq, Structural)]
pub struct VenueFilter {
    /// Only venues of this status, where one is given.
    pub status: Option<VenueStatus>,
    /// Whether venues that are not active are left out.
    pub active_only: bool,
}

/// Why a venue request was refused.
#[derive(Clone, Copy, Debug, PartialEq, Eq, Structural)]
pub enum VenueRejection {
    NotAuthenticated,
    AdminRequired,
    NotesRequired,
    InvalidVenueId,
    InvalidStatus,
    NameRequired,
    AddressRequired,
    PriceNotPositive,
    CourtsNotPositive,
}

/// What the store answered to a lookup or an update of one venue.
#[derive(Clone, Copy, Debug, PartialEq, Eq, Structural)]
pub enum StoreAnswer {
    Found,
    NotFound,
    Failed,
}

/// A hexadecimal digit, in either case.
pub open spec fn is_hex_digit(c: char) -> bool {
    ('0' <= c && c <= '9') || ('a' <= c && c <= 'f') || ('A' <= c && c <= 'F')
}

/// An object identifier in text: 24 hexadecimal digits.
pub open spec fn is_object_id(id: Seq<char>) -> bool {
    id.len() == 24 && forall|i: int| 0 <= i < id.len() ==> is_hex_digit(#[trigger] id[i])
}

/// The status that a word names.
pub open spec fn status_named(word: Seq<char>) -> Option<VenueStatus> {
    if word == "approved"@ {
        Some(VenueStatus::Approved)
    } else if word == "rejected"@ {
        Some(VenueStatus::Rejected)
    } else if word == "pending"@ {
        Some(VenueStatus::Pending)
    } else {
        None
    }
}

/// Whether a caller may review venues.
pub open spec fn review_access(caller: Option<User>) -> Result<(), VenueRejection> {
    match caller {
        None => Err(VenueRejection::NotAuthenticated),
        Some(user) => if user.role == Some(UserRole::Admin) {
            Ok(())
        } else {
            Err(VenueRejection::AdminRequired)
        },
    }
}

/// HTTP status of a refusal.
pub open spec fn rejection_status(rejection: VenueRejection) -> u16 {
    match rejection {
        VenueRejection::NotAuthenticated => 401,
        VenueRejection::AdminRequired => 403,
        _ => 400,
    }
}

/// Whether notes are present and more than whitespace.
pub open spec fn notes_given(notes: Option<String>) -> bool {
    notes matches Some(text) && trimmed(text@).len() > 0
}

/// Whether `id` can be an object identifier: whether the store's
/// `ObjectId::parse_str` would take it.
pub fn is_valid_object_id(id: &str) -> (valid: bool)
    ensures
        valid == is_object_id(id@),
{
    let chars = chars_of(id);
    if chars.len() != 24 {
        return false;
    }
    let mut i: usize = 0;
    while i < chars.len()
        invariant
            i <= chars.len(),
            chars@ == id@,
            chars.len() == 24,
            forall|j: int| 0 <= j < i ==> is_hex_digit(#[trigger] chars@[j]),
        decreases chars.len() - i,
    {
        let c = chars[i];
        let hex = (c >= '0' && c <= '9') || (c >= 'a' && c <= 'f') || (c >= 'A' && c <= 'F');
        if !hex {
            assert(!is_hex_digit(id@[i as int]));
            return false;
        }
        i += 1;
    }
    true
}

/// The status to answer a refusal with.
pub fn status_code(rejection: VenueRejection) -> (status: u16)
    ensures
        status == rejection_status(rejection),
{
    match rejection {
        VenueRejection::NotAuthenticated => 401,
        VenueRejection::AdminRequired => 403,
        _ => 400,
    }
}

/// The status that a word names: `approved`, `rejected` or `pending`.
pub fn parse_status(word: &str) -> (status: Option<VenueStatus>)
    ensures
        status == status_named(word@),
{
    if str_equals(word, "approved") {
        Some(VenueStatus::Approved)
    } else if str_equals(word, "rejected") {
        Some(VenueStatus::Rejected)
    } else if str_equals(word, "pending") {
        Some(VenueStatus::Pending)
    } else {
        None
    }
}

fn admin_of(caller: Option<&User>) -> (admin: Result<&User, VenueRejection>)
    ensures
        match review_access(
            match caller {
                Some(u) => Some(*u),
                None => None,
            },
        ) {
            Ok(_) => admin is Ok && caller == Some(admin->Ok_0),
            Err(e) => admin is Err && admin->Err_0 == e,
        },
{
    match caller {
        None => Err(VenueRejection::NotAuthenticated),
        Some(user) => match user.role {
            Some(UserRole::Admin) => Ok(user),
            _ => Err(VenueRejection::AdminRequired),
        },
    }
}

/// Decides whether the caller may list the venues that wait for review, and
/// which venues those are.
pub fn get_pending_venues(caller: Option<&User>) -> (listing: Result<VenueFilter, VenueRejection>)
    ensures
        match review_access(
            match caller {
                Some(u) => Some(*u),
                None => None,
            },
        ) {
            Ok(_) => listing == Ok::<VenueFilter, VenueRejection>(
                VenueFilter { status: Some(VenueStatus::Pending), active_only: false },
            ),
            Err(e) => listing == Err::<VenueFilter, VenueRejection>(e),
        },
{
    match admin_of(caller) {
        Ok(_) => Ok(VenueFilter { status: Some(VenueStatus::Pending), active_only: false }),
        Err(e) => Err(e),
    }
}

/// Decides an approval.
///
/// The caller must be an administrator and the identifier well-formed. The
/// review then records the approval with the notes given, or empty notes.
pub fn approve_venue(caller: Option<&User>, venue_id: &str, request: &VenueActionRequest, now: u64) -> (review:
    Result<VenueReview, VenueRejection>)
    ensures
        match review_access(
            match caller {
                Some(u) => Some(*u),
                None => None,
            },
        ) {
            Err(e) => review is Err && review->Err_0 == e,
            Ok(_) => if !is_object_id(venue_id@) {
                review is Err && review->Err_0 == VenueRejection::InvalidVenueId
            } else {
                &&& review is Ok
                &&& review->Ok_0.status == VenueStatus::Approved
                &&& review->Ok_0.admin_notes is Some
                &&& review->Ok_0.admin_notes->Some_0@ == (match request.admin_notes {
                    Some(n) => n@,
                    None => Seq::<char>::empty(),
                })
                &&& review->Ok_0.reviewed_by@ == caller->Some_0.id@
                &&& review->Ok_0.reviewed_at == now
            },
        },
{
    let admin = match admin_of(caller) {
        Ok(a) => a,
        Err(e) => {
            return Err(e);
        },
    };
    if !is_valid_object_id(venue_id) {
        return Err(VenueRejection::InvalidVenueId);
    }
    let notes = match &request.admin_notes {
        Some(n) => n.clone(),
        None => String::new(),
    };
    Ok(
        VenueReview {
            status: VenueStatus::Approved,
            admin_notes: Some(notes),
            reviewed_by: admin.id.clone(),
            reviewed_at: now,
        },
    )
}

/// Decides a rejection.
///
/// The caller must be an administrator, the notes must say something, and the
/// identifier must be well-formed, tested in this order. The review then
/// records the rejection with the notes as given.
pub fn reject_venue(caller: Option<&User>, venue_id: &str, request: &VenueActionRequest, now: u64) -> (review:
    Result<VenueReview, VenueRejection>)
    ensures
        match review_access(
            match caller {
                Some(u) => Some(*u),
                None => None,
            },
        ) {
            Err(e) => review is Err && review->Err_0 == e,
            Ok(_) => if !notes_given(request.admin_notes) {
                review is Err && review->Err_0 == VenueRejection::NotesRequired
            } else if !is_object_id(venue_id@) {
                review is Err && review->Err_0 == VenueRejection::InvalidVenueId
            } else {
                &&& review is Ok
                &&& review->Ok_0.status == VenueStatus::Rejected
                &&& text_view(review->Ok_0.admin_notes) == text_view(request.admin_notes)
                &&& review->Ok_0.reviewed_by@ == caller->Some_0.id@
                &&& review->Ok_0.reviewed_at == now
            },
        },
{
    let admin = match admin_of(caller) {
        Ok(a) => a,
        Err(e) => {
            return Err(e);
        },
    };
    let notes = match &request.admin_notes {
        Some(n) => {
            let rest = trim(n.as_str());
            if rest.unicode_len() == 0 {
                return Err(VenueRejection::NotesRequired);
            }
            n.clone()
        },
        None => {
            return Err(VenueRejection::NotesRequired);
        },
    };
    if !is_valid_object_id(venue_id) {
        return Err(VenueRejection::InvalidVenueId);
    }
    Ok(
        VenueReview {
            status: VenueStatus::Rejected,
            admin_notes: Some(notes),
            reviewed_by: admin.id.clone(),
            reviewed_at: now,
        },
    )
}

/// Decides a change of status: the identifier must be well-formed and the
/// status one of `approved`, `rejected`, `pending`, tested in this order.
pub fn update_venue_status(
    venue_id: &str,
    request: &UpdateVenueStatusRequest,
    admin_id: &str,
    now: u64,
) -> (review: Result<VenueReview, VenueRejection>)
    ensures
        if !is_object_id(venue_id@) {
            review is Err && review->Err_0 == VenueRejection::InvalidVenueId
        } else {
            match status_named(request.status@) {
                None => review is Err && review->Err_0 == VenueRejection::InvalidStatus,
                Some(status) => {
                    &&& review is Ok
                    &&& review->Ok_0.status == status
                    &&& text_view(review->Ok_0.admin_notes) == text_view(request.admin_notes)
                    &&& review->Ok_0.reviewed_by@ == admin_id@
                    &&& review->Ok_0.reviewed_at == now
                },
            }
        },
{
    if !is_valid_object_id(venue_id) {
        return Err(VenueRejection::InvalidVenueId);
    }
    let status = match parse_status(request.status.as_str()) {
        Some(s) => s,
        None => {
            return Err(VenueRejection::InvalidStatus);
        },
    };
    let notes = match &request.admin_notes {
        Some(n) => Some(n.clone()),
        None => None,
    };
    Ok(
        VenueReview {
            status,
            admin_notes: notes,
            reviewed_by: admin_id.to_owned(),
            reviewed_at: now,
        },
    )
}

/// Which venues a listing shows: those of the status asked for, where it names
/// one, and only the active ones unless inactive ones are asked for too.
pub fn get_venues(status: Option<&str>, include_inactive: bool) -> (filter: VenueFilter)
    ensures
        filter.status == (match status {
            Some(word) => status_named(word@),
            None => None,
        }),
        filter.active_only == !include_inactive,
{
    let status = match status {
        Some(word) => parse_status(word),
        None => None,
    };
    VenueFilter { status, active_only: !include_inactive }
}

/// Tests a new venue: it needs a name and an address that are more than
/// whitespace, a positive price and at least one court, tested in this order.
/// The price arrives as the answer to whether it is positive.
pub fn create_venue(name: &str, address: &str, price_is_positive: bool, number_of_courts: i32) -> (checked:
    Result<VenueStatus, VenueRejection>)
    ensures
        checked == (if trimmed(name@).len() == 0 {
            Err::<VenueStatus, VenueRejection>(VenueRejection::NameRequired)
        } else if trimmed(address@).len() == 0 {
            Err::<VenueStatus, VenueRejection>(VenueRejection::AddressRequired)
        } else if !price_is_positive {
            Err::<VenueStatus, VenueRejection>(VenueRejection::PriceNotPositive)
        } else if number_of_courts <= 0 {
            Err::<VenueStatus, VenueRejection>(VenueRejection::CourtsNotPositive)
        } else {
            Ok::<VenueStatus, VenueRejection>(VenueStatus::Pending)
        }),
{
    if trim(name).unicode_len() == 0 {
        return Err(VenueRejection::NameRequired);
    }
    if trim(address).unicode_len() == 0 {
        return Err(VenueRejection::AddressRequired);
    }
    if !price_is_positive {
        return Err(VenueRejection::PriceNotPositive);
    }
    if number_of_courts <= 0 {
        return Err(VenueRejection::CourtsNotPositive);
    }
    Ok(VenueStatus::Pending)
}

/// The status to answer a lookup of one venue with: 400 for an identifier that
/// is none, else 200, 404 or 500 as the store answered.
pub fn get_venue_by_id(venue_id: &str, answer: StoreAnswer) -> (status: u16)
    ensures
        status == (if !is_object_id(venue_id@) {
            400u16
        } else {
            match answer {
                StoreAnswer::Found => 200u16,
                StoreAnswer::NotFound => 404u16,
                StoreAnswer::Failed => 500u16,
            }
        }),
{
    if !is_valid_object_id(venue_id) {
        return 400;
    }
    match answer {
        StoreAnswer::Found => 200,
        StoreAnswer::NotFound => 404,
        StoreAnswer::Failed => 500,
    }
}

/// What the store's answer to an update means: a venue was found where at
/// least one document matched.
pub fn update_venue(matched: Option<u64>) -> (answer: StoreAnswer)
    ensures
        answer == (match matched {
            Some(n) => if n > 0 {
                StoreAnswer::Found
            } else {
                StoreAnswer::NotFound
            },
            None => StoreAnswer::Failed,
        }),
{
    match matched {
        Some(n) => if n > 0 {
            StoreAnswer::Found
        } else {
            StoreAnswer::NotFound
        },
        None => StoreAnswer::Failed,
    }
}

/// Only an administrator passes the review's door, whatever else the request holds.
pub proof fn only_administrators_review(caller: Option<User>)
    ensures
        review_access(caller) is Ok <==> (caller matches Some(user) && user.role == Some(
            UserRole::Admin,
        )),
        review_access(caller) matches Err(e) ==> rejection_status(e) == 401 || rejection_status(e)
            == 403,
{
}

} // verus!
