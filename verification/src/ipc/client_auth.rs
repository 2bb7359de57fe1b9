//! Authorization of a connecting pipe client.
//!
//! The shared secret of the pipe can be read by every logged-in user, so each
//! connection is also judged by the identity of the connecting process. A
//! client whose identity could not be resolved is let in; only a resolved
//! identity is ever turned away.

use vstd::prelude::*;

verus! {

/// Identity of a connecting pipe client, resolved from its process token.
#[derive(Debug, Clone, PartialEq, Eq)]
pub struct ClientIdentity {
    /// String SID of the token user (e.g. `S-1-5-21-...`).
    pub sid: String,
    /// Session ID the client process runs in (0 = services session).
    pub session_id: u32,
    /// Token is elevated (admin).
    pub is_elevated: bool,
    /// Token user is NT AUTHORITY\SYSTEM (`S-1-5-18`).
    pub is_system: bool,
    /// SID is a well-known untrusted principal (Anonymous / Null).
    pub well_known_untrusted: bool,
    /// The client runs an installed first-party image (GUI or CLI).
    pub first_party: bool,
}

/// SID of NT AUTHORITY\SYSTEM.
pub open spec fn system_sid(sid: Seq<char>) -> bool {
    sid == "S-1-5-18"@
}

/// SIDs that no legitimate client carries: Anonymous and Null.
pub open spec fn untrusted_sid(sid: Seq<char>) -> bool {
    sid == "S-1-5-7"@ || sid == "S-1-0-0"@
}

impl ClientIdentity {
    /// The identity that a token's plain facts describe.
    pub fn from_token(sid: String, session_id: u32, is_elevated: bool, first_party: bool) -> (id:
        ClientIdentity)
        ensures
            id.sid == sid,
            id.session_id == session_id,
            id.is_elevated == is_elevated,
            id.is_system == system_sid(sid@),
            id.well_known_untrusted == untrusted_sid(sid@),
            id.first_party == first_party,
    {
        let text = sid.as_str();
        let is_system = *text == *"S-1-5-18";
        let well_known_untrusted = *text == *"S-1-5-7" || *text == *"S-1-0-0";
        ClientIdentity {
            sid,
            session_id,
            is_elevated,
            is_system,
            well_known_untrusted,
            first_party,
        }
    }

    pub fn is_first_party(&self) -> (first_party: bool)
        ensures
            first_party == self.first_party,
    {
        self.first_party
    }
}

/// Authorization decision.
#[derive(Debug, Clone, PartialEq, Eq)]
pub enum Decision {
    Allow,
    Deny(&'static str),
}

/// Reason given to a client with an Anonymous or Null SID.
pub open spec fn anonymous_reason() -> Seq<char> {
    "anonymous/null SID"@
}

/// Reason given to an unprivileged client outside the console session.
pub open spec fn non_console_reason() -> Seq<char> {
    "unprivileged caller in a non-console session"@
}

/// SYSTEM and elevated callers are privileged.
pub open spec fn privileged(id: ClientIdentity) -> bool {
    id.is_system || id.is_elevated
}

/// The reason a client is turned away with, where it is.
pub open spec fn denial(id: ClientIdentity, active_console: Option<u32>) -> Option<Seq<char>> {
    if id.well_known_untrusted {
        Some(anonymous_reason())
    } else if !privileged(id) && active_console is Some && active_console->0 != id.session_id {
        Some(non_console_reason())
    } else {
        None
    }
}

/// Authorization policy. `active_console` is the physical console session,
/// `None` if it cannot be determined.
///
/// An untrusted SID is denied; a privileged caller, a caller in the console
/// session and any caller while the console session is unknown are allowed;
/// everybody else is denied.
pub fn decide(id: &ClientIdentity, active_console: Option<u32>) -> (decision: Decision)
    ensures
        match denial(*id, active_console) {
            Some(reason) => decision matches Decision::Deny(why) && why@ == reason,
            None => decision is Allow,
        },
{
    if id.well_known_untrusted {
        return Decision::Deny("anonymous/null SID");
    }
    if id.is_system || id.is_elevated {
        return Decision::Allow;
    }
    match active_console {
        Some(console) => if id.session_id == console {
            Decision::Allow
        } else {
            Decision::Deny("unprivileged caller in a non-console session")
        },
        None => Decision::Allow,
    }
}

/// Whether a connection is served: only a resolved identity can be refused.
pub open spec fn admitted_client(
    resolved: Option<&ClientIdentity>,
    active_console: Option<u32>,
) -> bool {
    resolved is None || denial(*resolved->0, active_console) is None
}

/// Whether a connection is served. `resolved` is `None` where the identity could not
/// be read.
pub fn authorize_pipe_client(resolved: Option<&ClientIdentity>, active_console: Option<u32>) -> (served:
    bool)
    ensures
        served == admitted_client(resolved, active_console),
        served == (resolved is None || denial(*resolved->0, active_console) is None),
{
    match resolved {
        Some(id) => match decide(id, active_console) {
            Decision::Allow => true,
            Decision::Deny(_) => false,
        },
        None => true,
    }
}

/// The physical console session, from the raw session number that the system
/// reports: all ones means that no session is attached.
pub open spec fn console_of(raw: u32) -> Option<u32> {
    if raw == u32::MAX {
        None
    } else {
        Some(raw)
    }
}

pub fn active_console_session(raw: u32) -> (session: Option<u32>)
    ensures
        session == console_of(raw),
        session == if raw == u32::MAX { None } else { Some(raw) },
{
    if raw == u32::MAX {
        None
    } else {
        Some(raw)
    }
}

/// The bucket that a client is accounted against. An unresolved identity falls
/// into one shared bucket, never into a bucket of its own.
#[derive(Debug, Clone, PartialEq, Eq)]
pub enum PrincipalKey {
    /// String SID from the client's process token.
    Sid(String),
    /// Identity could not be resolved.
    Unidentified,
}

/// Mathematical value of a [`PrincipalKey`].
pub enum Principal {
    Sid(Seq<char>),
    Unidentified,
}

impl View for PrincipalKey {
    type V = Principal;

    open spec fn view(&self) -> Principal {
        match self {
            PrincipalKey::Sid(sid) => Principal::Sid(sid@),
            PrincipalKey::Unidentified => Principal::Unidentified,
        }
    }
}

/// The principal of a connection.
pub open spec fn principal_of(id: Option<&ClientIdentity>) -> Principal {
    match id {
        Some(i) => Principal::Sid(i.sid@),
        None => Principal::Unidentified,
    }
}

impl PrincipalKey {
    pub fn from_identity(id: Option<&ClientIdentity>) -> (key: PrincipalKey)
        ensures
            key@ == principal_of(id),
    {
        match id {
            Some(i) => PrincipalKey::Sid(i.sid.clone()),
            None => PrincipalKey::Unidentified,
        }
    }

    /// A second key for the same principal.
    pub fn duplicate(&self) -> (key: PrincipalKey)
        ensures
            key@ == self@,
    {
        match self {
            PrincipalKey::Sid(sid) => PrincipalKey::Sid(sid.clone()),
            PrincipalKey::Unidentified => PrincipalKey::Unidentified,
        }
    }

    /// Whether both keys stand for one principal.
    pub fn same(&self, other: &PrincipalKey) -> (equal: bool)
        ensures
            equal == (self@ == other@),
    {
        match (self, other) {
            (PrincipalKey::Sid(a), PrincipalKey::Sid(b)) => *a == *b,
            (PrincipalKey::Unidentified, PrincipalKey::Unidentified) => true,
            _ => false,
        }
    }
}

/// An Anonymous or Null SID is refused whatever else its token says.
pub proof fn untrusted_always_denied(id: ClientIdentity, active_console: Option<u32>)
    requires
        id.well_known_untrusted,
    ensures
        denial(id, active_console) == Some(anonymous_reason()),
{
}

/// A privileged caller is served in every session.
pub proof fn privileged_always_allowed(id: ClientIdentity, active_console: Option<u32>)
    requires
        privileged(id),
        !id.well_known_untrusted,
    ensures
        denial(id, active_console) is None,
{
}

/// While the console session is unknown, only untrusted SIDs are refused.
pub proof fn unknown_console_fails_open(id: ClientIdentity)
    ensures
        denial(id, None) is Some <==> id.well_known_untrusted,
{
}

/// An unprivileged caller is served in exactly the console session.
pub proof fn unprivileged_needs_console(id: ClientIdentity, console: u32)
    requires
        !id.well_known_untrusted,
        !privileged(id),
    ensures
        denial(id, Some(console)) is None <==> id.session_id == console,
{
}

/// The system is told by its own SID, and the anonymous and the null SID are trusted
/// by nobody.
pub proof fn known_sids_are_these(sid: Seq<char>)
    ensures
        system_sid(sid) <==> sid == "S-1-5-18"@,
        untrusted_sid(sid) <==> sid == "S-1-5-7"@ || sid == "S-1-0-0"@,
        system_sid(sid) ==> !untrusted_sid(sid),
{
    reveal_strlit("S-1-5-18");
    reveal_strlit("S-1-5-7");
    reveal_strlit("S-1-0-0");
    assert("S-1-5-18"@.len() == 8 && "S-1-5-7"@.len() == 7 && "S-1-0-0"@.len() == 7);
}

/// A client is turned away where its SID is untrusted, or where it is unprivileged
/// and outside a known console session; nobody else is, and each is told why.
pub proof fn clients_are_turned_away_for_two_reasons(
    id: ClientIdentity,
    active_console: Option<u32>,
)
    ensures
        ({
            let stranger = !id.is_system && !id.is_elevated && active_console is Some
                && active_console->0 != id.session_id;
            &&& id.well_known_untrusted ==> denial(id, active_console) == Some(
                "anonymous/null SID"@,
            )
            &&& !id.well_known_untrusted && stranger ==> denial(id, active_console) == Some(
                "unprivileged caller in a non-console session"@,
            )
            &&& !id.well_known_untrusted && !stranger ==> denial(id, active_console) is None
            &&& admitted_client(Some(&id), active_console) <==> !id.well_known_untrusted
                && !stranger
            &&& admitted_client(None, active_console)
        }),
{
}

/// A session number is taken as it is; all ones are none.
pub proof fn console_session_is_a_number(raw: u32)
    ensures
        raw == 0xFFFF_FFFF ==> console_of(raw) is None,
        raw != 0xFFFF_FFFF ==> console_of(raw) == Some(raw),
{
}

/// Clients of one SID are one principal, of different SIDs different ones, and all
/// unresolved clients together are one.
pub proof fn principals_are_told_by_sid(a: ClientIdentity, b: ClientIdentity)
    ensures
        principal_of(Some(&a)) == principal_of(Some(&b)) <==> a.sid@ == b.sid@,
        principal_of(Some(&a)) != principal_of(None),
{
}

} // verus!
