//! The Secret Service of a Linux desktop.
//!
//! The service is reached over the session bus, and a lookup is a
//! conversation of up to six requests: open a session, get the default
//! collection, unlock it, search it, unlock the item found, read its secret.
//! Each request may block, prompt the user, or fail. `Lookup` holds the side
//! of this crate: which request comes next, and what the lookup has come to.
//! The caller sends each request and hands back the reply.

use crate::keyring::{service_identifier, service_name};
use vstd::prelude::*;
use vstd::string::StringExecFns;

verus! {

/// The attribute of an item that names the user. It is searched for with an
/// empty value.
pub const USERNAME_ATTRIBUTE: &'static str = "username";

/// The attribute of an item that holds the service name of the host.
pub const SERVICE_ATTRIBUTE: &'static str = "service";

/// A failure of a lookup in the Secret Service.
#[derive(Debug, Clone, PartialEq, Eq)]
pub enum Error {
    /// A request failed; the service's own description of the failure.
    SecretService(String),
    /// A reply was handed back that the request it followed cannot have.
    UnexpectedReply,
}

/// What a lookup asks of the Secret Service.
#[derive(Debug, Clone, Copy, PartialEq, Eq)]
pub enum Request {
    /// Open a session in which secrets are transferred encrypted, the key
    /// agreed on by Diffie-Hellman.
    Connect,
    /// Get the default collection.
    DefaultCollection,
    /// Unlock the collection. The service may prompt the user.
    UnlockCollection,
    /// Search the collection for the items that carry the attributes of the host.
    SearchItems,
    /// Unlock the first of the items found. The service may prompt the user.
    UnlockItem,
    /// Read the secret of the first of the items found.
    ReadSecret,
}

/// What the Secret Service answered to a request.
#[derive(Debug, Clone, PartialEq, Eq)]
pub enum Reply {
    /// The request succeeded; it returns nothing that the lookup reads.
    Done,
    /// The search succeeded and found this many items.
    Found(usize),
    /// The secret that was read.
    Secret(Vec<u8>),
    /// The request failed; the service's own description of the failure.
    Failed(String),
}

/// A lookup in the Secret Service: either a request is due, or the lookup
/// has come to its result.
#[derive(Debug, PartialEq, Eq)]
pub enum Lookup {
    /// This request is to be sent next.
    Pending(Request),
    /// The lookup is over: the secret, `None` where no item matched, or the
    /// failure that ended it.
    Finished(Result<Option<Vec<u8>>, Error>),
}

impl Request {
    /// Whether `reply` is an answer that this request can have.
    pub open spec fn answered_by(self, reply: Reply) -> bool {
        match reply {
            Reply::Failed(_) => true,
            Reply::Done => !(self is SearchItems) && !(self is ReadSecret),
            Reply::Found(_) => self is SearchItems,
            Reply::Secret(_) => self is ReadSecret,
        }
    }
}

impl Lookup {
    /// A lookup before its first request.
    pub open spec fn start() -> Lookup {
        Lookup::Pending(Request::Connect)
    }

    /// The lookup after `reply` has answered the pending request.
    ///
    /// A failure ends the lookup with that failure, at whatever request it
    /// occurs. A search that finds nothing ends it with `None`. Once the
    /// lookup is over, further replies change nothing.
    pub open spec fn next(self, reply: Reply) -> Lookup {
        match self {
            Lookup::Finished(_) => self,
            Lookup::Pending(request) => match (request, reply) {
                (_, Reply::Failed(message)) => Lookup::Finished(
                    Err(Error::SecretService(message)),
                ),
                (Request::Connect, Reply::Done) => Lookup::Pending(Request::DefaultCollection),
                (Request::DefaultCollection, Reply::Done) => Lookup::Pending(
                    Request::UnlockCollection,
                ),
                (Request::UnlockCollection, Reply::Done) => Lookup::Pending(Request::SearchItems),
                (Request::SearchItems, Reply::Found(items)) => if items == 0 {
                    Lookup::Finished(Ok(None))
                } else {
                    Lookup::Pending(Request::UnlockItem)
                },
                (Request::UnlockItem, Reply::Done) => Lookup::Pending(Request::ReadSecret),
                (Request::ReadSecret, Reply::Secret(secret)) => Lookup::Finished(
                    Ok(Some(secret)),
                ),
                _ => Lookup::Finished(Err(Error::UnexpectedReply)),
            },
        }
    }

    /// The lookup after the replies of a whole conversation, in their order.
    pub open spec fn run(self, replies: Seq<Reply>) -> Lookup
        decreases replies.len(),
    {
        if replies.len() == 0 {
            self
        } else {
            self.next(replies[0]).run(replies.drop_first())
        }
    }

    /// The number of requests that the lookup may still make.
    pub open spec fn requests_left(self) -> nat {
        match self {
            Lookup::Pending(Request::Connect) => 6,
            Lookup::Pending(Request::DefaultCollection) => 5,
            Lookup::Pending(Request::UnlockCollection) => 4,
            Lookup::Pending(Request::SearchItems) => 3,
            Lookup::Pending(Request::UnlockItem) => 2,
            Lookup::Pending(Request::ReadSecret) => 1,
            Lookup::Finished(_) => 0,
        }
    }

    /// What the lookup has come to, as a store of secrets reports it; `None`
    /// while a request is pending.
    pub open spec fn result(self) -> Option<Result<Option<Vec<u8>>, crate::keyring::Error>> {
        match self {
            Lookup::Pending(_) => None,
            Lookup::Finished(Ok(found)) => Some(Ok(found)),
            Lookup::Finished(Err(e)) => Some(Err(crate::keyring::Error::Linux(e))),
        }
    }

    /// Takes the reply to the pending request and moves the lookup on.
    pub fn advance(self, reply: Reply) -> (r: Lookup)
        ensures
            r == self.next(reply),
    {
        let request = match self {
            Lookup::Finished(result) => {
                return Lookup::Finished(result);
            },
            Lookup::Pending(request) => request,
        };
        match reply {
            Reply::Failed(message) => Lookup::Finished(Err(Error::SecretService(message))),
            Reply::Done => match request {
                Request::Connect => Lookup::Pending(Request::DefaultCollection),
                Request::DefaultCollection => Lookup::Pending(Request::UnlockCollection),
                Request::UnlockCollection => Lookup::Pending(Request::SearchItems),
                Request::UnlockItem => Lookup::Pending(Request::ReadSecret),
                _ => Lookup::Finished(Err(Error::UnexpectedReply)),
            },
            Reply::Found(items) => match request {
                Request::SearchItems => {
                    if items == 0 {
                        Lookup::Finished(Ok(None))
                    } else {
                        Lookup::Pending(Request::UnlockItem)
                    }
                },
                _ => Lookup::Finished(Err(Error::UnexpectedReply)),
            },
            Reply::Secret(secret) => match request {
                Request::ReadSecret => Lookup::Finished(Ok(Some(secret))),
                _ => Lookup::Finished(Err(Error::UnexpectedReply)),
            },
        }
    }

    /// The result of the lookup once it is over, `None` before.
    pub fn outcome(self) -> (r: Option<Result<Option<Vec<u8>>, crate::keyring::Error>>)
        ensures
            r == self.result(),
    {
        match self {
            Lookup::Pending(_) => None,
            Lookup::Finished(Ok(found)) => Some(Ok(found)),
            Lookup::Finished(Err(e)) => Some(Err(crate::keyring::Error::Linux(e))),
        }
    }
}

/// The Secret Service as a store of secrets.
///
/// The conversation with the service is the caller's. It starts from
/// `lookup()`, searches with `attributes(host)`, and is led by `Lookup`.
#[derive(Debug, Clone, Copy, PartialEq, Eq)]
pub struct SecretService;

impl SecretService {
    /// The attributes that the item of `host` carries: an empty user name,
    /// and the service name of the host.
    pub open spec fn search(host: Seq<char>) -> Seq<(Seq<char>, Seq<char>)> {
        seq![
            (USERNAME_ATTRIBUTE@, Seq::<char>::empty()),
            (SERVICE_ATTRIBUTE@, service_identifier(host)),
        ]
    }

    /// The attributes to search the collection with for the item of `host`.
    pub fn attributes(&self, host: &str) -> (r: Vec<(String, String)>)
        ensures
            r.deep_view() == Self::search(host@),
    {
        let mut attributes: Vec<(String, String)> = Vec::new();
        attributes.push((String::from_str(USERNAME_ATTRIBUTE), String::new()));
        attributes.push((String::from_str(SERVICE_ATTRIBUTE), service_name(host)));
        assert(attributes.deep_view() =~= Self::search(host@));
        attributes
    }

    /// A lookup before its first request, which is to open the session.
    pub fn lookup(&self) -> (r: Lookup)
        ensures
            r == Lookup::start(),
    {
        Lookup::Pending(Request::Connect)
    }
}

/// Each reply to a pending request brings the lookup nearer to its end.
pub proof fn lemma_next_advances(lookup: Lookup, reply: Reply)
    ensures
        lookup is Pending ==> lookup.next(reply).requests_left() < lookup.requests_left(),
        lookup is Finished ==> lookup.next(reply) == lookup,
{
}

/// A reply that the pending request cannot have ends the lookup with
/// `UnexpectedReply`; a reply that it can have, and that is no failure,
/// never ends it with an error.
pub proof fn lemma_reply_fits(request: Request, reply: Reply)
    ensures
        !request.answered_by(reply) ==> Lookup::Pending(request).next(reply) == Lookup::Finished(
            Err(Error::UnexpectedReply),
        ),
        request.answered_by(reply) && !(reply is Failed) ==> !(Lookup::Pending(request).next(
            reply,
        ) matches Lookup::Finished(Err(_))),
{
}

/// A lookup that is over stays as it is, whatever replies follow.
pub proof fn lemma_finished_stays(lookup: Lookup, replies: Seq<Reply>)
    requires
        lookup is Finished,
    ensures
        lookup.run(replies) == lookup,
    decreases replies.len(),
{
    if replies.len() > 0 {
        lemma_finished_stays(lookup, replies.drop_first());
    }
}

/// Running a conversation in two parts is running it whole.
pub proof fn lemma_run_split(lookup: Lookup, first: Seq<Reply>, second: Seq<Reply>)
    ensures
        lookup.run(first + second) == lookup.run(first).run(second),
    decreases first.len(),
{
    if first.len() == 0 {
        assert(first + second =~= second);
    } else {
        assert((first + second).drop_first() =~= first.drop_first() + second);
        lemma_run_split(lookup.next(first[0]), first.drop_first(), second);
    }
}

/// A lookup is over once it has had as many replies as it had requests
/// left: no lookup takes more than six.
pub proof fn lemma_lookup_ends(lookup: Lookup, replies: Seq<Reply>)
    requires
        replies.len() >= lookup.requests_left(),
    ensures
        lookup.run(replies) is Finished,
    decreases replies.len(),
{
    if replies.len() > 0 {
        lemma_next_advances(lookup, replies[0]);
        lemma_lookup_ends(lookup.next(replies[0]), replies.drop_first());
    }
}

/// The first failure ends the lookup with that failure: where the request
/// that `replies[at]` answers was still pending and the reply is a failure,
/// the lookup comes to that failure and to nothing else, whatever follows.
pub proof fn lemma_failure_ends_lookup(lookup: Lookup, replies: Seq<Reply>, at: int)
    requires
        0 <= at < replies.len(),
        lookup.run(replies.take(at)) is Pending,
        replies[at] is Failed,
    ensures
        lookup.run(replies) == Lookup::Finished(
            Err(Error::SecretService(replies[at]->Failed_0)),
        ),
{
    let before = replies.take(at);
    let after = replies.skip(at);
    assert(replies =~= before + after);
    lemma_run_split(lookup, before, after);
    let failed = lookup.run(before).next(after[0]);
    assert(lookup.run(before).run(after) == failed.run(after.drop_first()));
    lemma_finished_stays(failed, after.drop_first());
}

/// Where every request succeeds and the search finds an item, the lookup
/// comes to the secret that was read.
pub proof fn lemma_secret_is_returned(items: usize, secret: Vec<u8>)
    requires
        items > 0,
    ensures
        Lookup::start().run(
            seq![
                Reply::Done,
                Reply::Done,
                Reply::Done,
                Reply::Found(items),
                Reply::Done,
                Reply::Secret(secret),
            ],
        ) == Lookup::Finished(Ok(Some(secret))),
{
    reveal_with_fuel(Lookup::run, 7);
}

/// Where the search finds no item, the lookup ends with `None`, and neither
/// an item nor a secret is asked for.
pub proof fn lemma_nothing_found()
    ensures
        Lookup::start().run(seq![Reply::Done, Reply::Done, Reply::Done, Reply::Found(0)])
            == Lookup::Finished(Ok(None)),
{
    reveal_with_fuel(Lookup::run, 5);
}

/// No partial result: a lookup comes to a secret only where all six
/// requests succeeded, the search found an item, and the secret is the one
/// that was read.
pub proof fn lemma_secret_needs_every_step(replies: Seq<Reply>, secret: Vec<u8>)
    requires
        Lookup::start().run(replies) == Lookup::Finished(Ok(Some(secret))),
    ensures
        replies.len() >= 6,
        replies[0] is Done,
        replies[1] is Done,
        replies[2] is Done,
        replies[3] matches Reply::Found(items) && items > 0,
        replies[4] is Done,
        replies[5] == Reply::Secret(secret),
{
    reveal_with_fuel(Lookup::run, 7);
    if replies.len() >= 6 {
        let rest = replies.skip(6);
        let first = replies.take(6);
        assert(replies =~= first + rest);
        lemma_run_split(Lookup::start(), first, rest);
        lemma_lookup_ends(Lookup::start(), first);
        lemma_finished_stays(Lookup::start().run(first), rest);
        assert(first[0] == replies[0] && first[1] == replies[1] && first[2] == replies[2]
            && first[3] == replies[3] && first[4] == replies[4] && first[5] == replies[5]);
    }
    let l1 = Lookup::start();
    if replies.len() > 0 {
        let l2 = l1.next(replies[0]);
        if l2 is Finished {
            lemma_finished_stays(l2, replies.drop_first());
        }
    }
}

} // verus!
