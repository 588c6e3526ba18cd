//! The walk over the WASAPI endpoints: which call comes next, what is
//! released when one fails, and how a failure is reported.

use vstd::prelude::*;
use vstd::string::*;

use super::wasapi::{WasapiReply, S_OK};
use crate::error::Error;
use crate::text::push_status_hex;

verus! {

/// Where a walk stands.
#[derive(Debug, Clone, Copy, PartialEq, Eq, Structural)]
pub enum ListStage {
    CreateEnumerator,
    GetDefault,
    GetDefaultId,
    ReleaseDefault,
    Enumerate,
    GetCount,
    Item,
    GetId,
    ReadName,
    ReleaseItem,
    ReleaseCollection,
    ReleaseEnumerator,
    Done,
    Failed,
}

/// The call that a walk makes next.
#[derive(Debug, Clone, Copy, PartialEq, Eq, Structural)]
pub enum ListCall {
    CreateEnumerator,
    /// `GetDefaultAudioEndpoint(eRender, eConsole)`.
    GetDefault,
    /// `IMMDevice::GetId` of the default endpoint.
    GetDefaultId,
    ReleaseDefault,
    /// `EnumAudioEndpoints(eRender, DEVICE_STATE_ACTIVE)`.
    Enumerate,
    /// `IMMDeviceCollection::GetCount`.
    GetCount,
    /// `IMMDeviceCollection::Item` at this index.
    Item(u64),
    /// `IMMDevice::GetId` of the endpoint.
    GetId,
    /// `PKEY_Device_FriendlyName` of the endpoint.
    ReadName,
    ReleaseItem,
    ReleaseCollection,
    ReleaseEnumerator,
    Nothing,
}

/// The call that stopped a walk, and its HRESULT.
#[derive(Debug, Clone, Copy, PartialEq, Eq, Structural)]
pub struct ListFailure {
    pub call: ListCall,
    pub code: i32,
}

/// A walk in progress.
#[derive(Debug, Clone, Copy, PartialEq, Eq, Structural)]
pub struct EndpointWalk {
    pub stage: ListStage,
    pub failure: Option<ListFailure>,
    /// How many endpoints there are, once that is known.
    pub count: u64,
    /// How many endpoints have been read.
    pub listed: u64,
}

impl EndpointWalk {
    /// A walk before any call.
    pub open spec fn started() -> EndpointWalk {
        EndpointWalk { stage: ListStage::CreateEnumerator, failure: None, count: 0, listed: 0 }
    }

    /// The call that the current stage makes.
    pub open spec fn due(self) -> ListCall {
        match self.stage {
            ListStage::CreateEnumerator => ListCall::CreateEnumerator,
            ListStage::GetDefault => ListCall::GetDefault,
            ListStage::GetDefaultId => ListCall::GetDefaultId,
            ListStage::ReleaseDefault => ListCall::ReleaseDefault,
            ListStage::Enumerate => ListCall::Enumerate,
            ListStage::GetCount => ListCall::GetCount,
            ListStage::Item => ListCall::Item(self.listed),
            ListStage::GetId => ListCall::GetId,
            ListStage::ReadName => ListCall::ReadName,
            ListStage::ReleaseItem => ListCall::ReleaseItem,
            ListStage::ReleaseCollection => ListCall::ReleaseCollection,
            ListStage::ReleaseEnumerator => ListCall::ReleaseEnumerator,
            ListStage::Done => ListCall::Nothing,
            ListStage::Failed => ListCall::Nothing,
        }
    }

    /// The walk gone to `stage`.
    pub open spec fn at(self, stage: ListStage) -> EndpointWalk {
        EndpointWalk { stage, ..self }
    }

    /// The walk gone to `stage` because the current call failed.
    pub open spec fn failed_to(self, stage: ListStage, reply: WasapiReply) -> EndpointWalk {
        EndpointWalk {
            stage,
            failure: Some(ListFailure { call: self.due(), code: reply.code }),
            ..self
        }
    }

    /// The walk after the current stage's call gave `reply`. That there is
    /// no default endpoint, or no friendly name, is no failure; anything
    /// else that is missing is one, and what is held is released then.
    pub open spec fn after(self, reply: WasapiReply) -> EndpointWalk {
        match self.stage {
            ListStage::CreateEnumerator => if reply.delivered() {
                self.at(ListStage::GetDefault)
            } else {
                self.failed_to(ListStage::Failed, reply)
            },
            ListStage::GetDefault => if reply.delivered() {
                self.at(ListStage::GetDefaultId)
            } else {
                self.at(ListStage::Enumerate)
            },
            ListStage::GetDefaultId => self.at(ListStage::ReleaseDefault),
            ListStage::ReleaseDefault => self.at(ListStage::Enumerate),
            ListStage::Enumerate => if reply.delivered() {
                self.at(ListStage::GetCount)
            } else {
                self.failed_to(ListStage::ReleaseEnumerator, reply)
            },
            ListStage::GetCount => if reply.code != S_OK {
                self.failed_to(ListStage::ReleaseCollection, reply)
            } else {
                EndpointWalk {
                    stage: if reply.count > 0 {
                        ListStage::Item
                    } else {
                        ListStage::ReleaseCollection
                    },
                    count: reply.count,
                    ..self
                }
            },
            ListStage::Item => if reply.delivered() {
                self.at(ListStage::GetId)
            } else {
                self.failed_to(ListStage::ReleaseCollection, reply)
            },
            ListStage::GetId => if reply.delivered() {
                self.at(ListStage::ReadName)
            } else {
                self.failed_to(ListStage::ReleaseItem, reply)
            },
            ListStage::ReadName => EndpointWalk {
                stage: ListStage::ReleaseItem,
                listed: crate::time::at_most(self.listed + 1, self.count as int) as u64,
                ..self
            },
            ListStage::ReleaseItem => if self.failure is None && self.listed < self.count {
                self.at(ListStage::Item)
            } else {
                self.at(ListStage::ReleaseCollection)
            },
            ListStage::ReleaseCollection => self.at(ListStage::ReleaseEnumerator),
            ListStage::ReleaseEnumerator => if self.failure is None {
                self.at(ListStage::Done)
            } else {
                self.at(ListStage::Failed)
            },
            ListStage::Done => self,
            ListStage::Failed => self,
        }
    }

    /// Begins a walk.
    pub fn start() -> (walk: EndpointWalk)
        ensures
            walk == EndpointWalk::started(),
    {
        EndpointWalk { stage: ListStage::CreateEnumerator, failure: None, count: 0, listed: 0 }
    }

    /// The call to make next.
    pub fn call(&self) -> (call: ListCall)
        ensures
            call == self.due(),
    {
        match self.stage {
            ListStage::CreateEnumerator => ListCall::CreateEnumerator,
            ListStage::GetDefault => ListCall::GetDefault,
            ListStage::GetDefaultId => ListCall::GetDefaultId,
            ListStage::ReleaseDefault => ListCall::ReleaseDefault,
            ListStage::Enumerate => ListCall::Enumerate,
            ListStage::GetCount => ListCall::GetCount,
            ListStage::Item => ListCall::Item(self.listed),
            ListStage::GetId => ListCall::GetId,
            ListStage::ReadName => ListCall::ReadName,
            ListStage::ReleaseItem => ListCall::ReleaseItem,
            ListStage::ReleaseCollection => ListCall::ReleaseCollection,
            ListStage::ReleaseEnumerator => ListCall::ReleaseEnumerator,
            ListStage::Done | ListStage::Failed => ListCall::Nothing,
        }
    }

    /// Takes the reply to the current call.
    pub fn step(self, reply: WasapiReply) -> (next: EndpointWalk)
        ensures
            next == self.after(reply),
    {
        let ok = reply.code == S_OK;
        let delivered = ok && reply.present;
        let failure = Some(ListFailure { call: self.call(), code: reply.code });
        let mut next = self;
        match self.stage {
            ListStage::CreateEnumerator => {
                if delivered {
                    next.stage = ListStage::GetDefault;
                } else {
                    next.stage = ListStage::Failed;
                    next.failure = failure;
                }
            },
            ListStage::GetDefault => {
                next.stage = if delivered {
                    ListStage::GetDefaultId
                } else {
                    ListStage::Enumerate
                };
            },
            ListStage::GetDefaultId => {
                next.stage = ListStage::ReleaseDefault;
            },
            ListStage::ReleaseDefault => {
                next.stage = ListStage::Enumerate;
            },
            ListStage::Enumerate => {
                if delivered {
                    next.stage = ListStage::GetCount;
                } else {
                    next.stage = ListStage::ReleaseEnumerator;
                    next.failure = failure;
                }
            },
            ListStage::GetCount => {
                if ok {
                    next.count = reply.count;
                    next.stage = if reply.count > 0 {
                        ListStage::Item
                    } else {
                        ListStage::ReleaseCollection
                    };
                } else {
                    next.stage = ListStage::ReleaseCollection;
                    next.failure = failure;
                }
            },
            ListStage::Item => {
                if delivered {
                    next.stage = ListStage::GetId;
                } else {
                    next.stage = ListStage::ReleaseCollection;
                    next.failure = failure;
                }
            },
            ListStage::GetId => {
                if delivered {
                    next.stage = ListStage::ReadName;
                } else {
                    next.stage = ListStage::ReleaseItem;
                    next.failure = failure;
                }
            },
            ListStage::ReadName => {
                next.stage = ListStage::ReleaseItem;
                next.listed = if self.listed < self.count {
                    self.listed + 1
                } else {
                    self.count
                };
            },
            ListStage::ReleaseItem => {
                next.stage = if self.failure.is_none() && self.listed < self.count {
                    ListStage::Item
                } else {
                    ListStage::ReleaseCollection
                };
            },
            ListStage::ReleaseCollection => {
                next.stage = ListStage::ReleaseEnumerator;
            },
            ListStage::ReleaseEnumerator => {
                next.stage = if self.failure.is_none() {
                    ListStage::Done
                } else {
                    ListStage::Failed
                };
            },
            ListStage::Done | ListStage::Failed => {},
        }
        next
    }

    /// The walk after a sequence of replies.
    pub open spec fn after_all(replies: Seq<WasapiReply>) -> EndpointWalk
        decreases replies.len(),
    {
        if replies.len() == 0 {
            EndpointWalk::started()
        } else {
            Self::after_all(replies.drop_last()).after(replies.last())
        }
    }

    /// What the calls made so far have left held.
    pub open spec fn held_after_all(replies: Seq<WasapiReply>) -> ListHeld
        decreases replies.len(),
    {
        if replies.len() == 0 {
            ListHeld { enumerator: false, default: false, collection: false, item: false }
        } else {
            Self::held_after_all(replies.drop_last()).after(
                Self::after_all(replies.drop_last()).due(),
                replies.last(),
            )
        }
    }

    /// Whether the walk is over, one way or the other.
    pub open spec fn settled(self) -> bool {
        self.stage is Done || self.stage is Failed
    }

    /// The most replies that a walk can have had when it stands here.
    pub open spec fn spent(self) -> int {
        match self.stage {
            ListStage::CreateEnumerator => 0,
            ListStage::GetDefault => 1,
            ListStage::GetDefaultId => 2,
            ListStage::ReleaseDefault => 3,
            ListStage::Enumerate => 4,
            ListStage::GetCount => 5,
            ListStage::Item => 6 + 4 * self.listed,
            ListStage::GetId => 7 + 4 * self.listed,
            ListStage::ReadName => 8 + 4 * self.listed,
            ListStage::ReleaseItem => if self.failure is None {
                5 + 4 * self.listed
            } else {
                8 + 4 * self.listed
            },
            ListStage::ReleaseCollection => 6 + 4 * self.count,
            ListStage::ReleaseEnumerator => 7 + 4 * self.count,
            ListStage::Done => 8 + 4 * self.count,
            ListStage::Failed => 8 + 4 * self.count,
        }
    }
}

/// What a walk holds of COM.
#[derive(Debug, Clone, Copy, PartialEq, Eq, Structural)]
pub struct ListHeld {
    pub enumerator: bool,
    /// The default endpoint.
    pub default: bool,
    pub collection: bool,
    /// The endpoint that is being read.
    pub item: bool,
}

impl ListHeld {
    /// What is held once `call` has given `reply`.
    pub open spec fn after(self, call: ListCall, reply: WasapiReply) -> ListHeld {
        match call {
            ListCall::CreateEnumerator => ListHeld { enumerator: reply.delivered(), ..self },
            ListCall::GetDefault => ListHeld { default: reply.delivered(), ..self },
            ListCall::ReleaseDefault => ListHeld { default: false, ..self },
            ListCall::Enumerate => ListHeld { collection: reply.delivered(), ..self },
            ListCall::Item(_) => ListHeld { item: reply.delivered(), ..self },
            ListCall::ReleaseItem => ListHeld { item: false, ..self },
            ListCall::ReleaseCollection => ListHeld { collection: false, ..self },
            ListCall::ReleaseEnumerator => ListHeld { enumerator: false, ..self },
            _ => self,
        }
    }

    /// Whether `call` may be made with this held: what it works on is there,
    /// what it acquires is not yet, and nothing outlives what it came from.
    pub open spec fn allows(self, call: ListCall) -> bool {
        match call {
            ListCall::CreateEnumerator => !self.enumerator,
            ListCall::GetDefault => self.enumerator && !self.default,
            ListCall::GetDefaultId => self.default,
            ListCall::ReleaseDefault => self.default,
            ListCall::Enumerate => self.enumerator && !self.default && !self.collection,
            ListCall::GetCount => self.collection,
            ListCall::Item(_) => self.collection && !self.item,
            ListCall::GetId => self.item,
            ListCall::ReadName => self.item,
            ListCall::ReleaseItem => self.item,
            ListCall::ReleaseCollection => self.collection && !self.item,
            ListCall::ReleaseEnumerator => self.enumerator && !self.default && !self.collection
                && !self.item,
            ListCall::Nothing => !self.enumerator && !self.default && !self.collection
                && !self.item,
        }
    }

    /// What a walk at this stage holds.
    pub open spec fn fits(self, stage: ListStage) -> bool {
        let reading = stage is GetId || stage is ReadName || stage is ReleaseItem;
        &&& self.enumerator == !(stage is CreateEnumerator || stage is Done || stage is Failed)
        &&& self.default == (stage is GetDefaultId || stage is ReleaseDefault)
        &&& self.item == reading
        &&& self.collection == (reading || stage is GetCount || stage is Item
            || stage is ReleaseCollection)
    }
}

/// Whatever the system replies, every call of a walk works on something that
/// is held, and a walk that is over holds nothing. It is over once it has
/// had eight replies and four more for each endpoint.
pub proof fn law_walk_releases_what_it_holds(replies: Seq<WasapiReply>)
    ensures
        ({
            let walk = EndpointWalk::after_all(replies);
            let held = EndpointWalk::held_after_all(replies);
            &&& held.allows(walk.due())
            &&& walk.settled() ==> !held.enumerator && !held.default && !held.collection
                && !held.item
            &&& replies.len() >= 8 + 4 * walk.count ==> walk.settled()
        }),
{
    lemma_walk_fits(replies);
}

/// A walk fails exactly when a call that it needs failed; a missing default
/// or a missing name never fails it. One that is done has read every
/// endpoint that was counted.
pub proof fn law_walk_is_complete_or_failed(replies: Seq<WasapiReply>)
    ensures
        ({
            let walk = EndpointWalk::after_all(replies);
            &&& walk.stage is Done ==> walk.failure is None && walk.listed == walk.count
            &&& walk.stage is Failed ==> walk.failure is Some
            &&& walk.failure matches Some(f) ==> match f.call {
                ListCall::CreateEnumerator => true,
                ListCall::Enumerate => true,
                ListCall::GetCount => f.code != S_OK,
                ListCall::Item(i) => i == walk.listed < walk.count,
                ListCall::GetId => walk.listed < walk.count,
                _ => false,
            }
        }),
{
    lemma_walk_fits(replies);
}

proof fn lemma_walk_fits(replies: Seq<WasapiReply>)
    ensures
        ({
            let walk = EndpointWalk::after_all(replies);
            &&& EndpointWalk::held_after_all(replies).fits(walk.stage)
            &&& walk.settled() || replies.len() <= walk.spent()
            &&& walk.listed <= walk.count
            &&& match walk.stage {
                ListStage::Item => walk.failure is None && walk.listed < walk.count,
                ListStage::GetId => walk.failure is None && walk.listed < walk.count,
                ListStage::ReadName => walk.failure is None && walk.listed < walk.count,
                ListStage::ReleaseItem => walk.failure is None ==> walk.listed > 0,
                ListStage::ReleaseCollection => walk.failure is None ==> walk.listed == walk.count,
                ListStage::ReleaseEnumerator => walk.failure is None ==> walk.listed == walk.count,
                ListStage::Done => walk.failure is None && walk.listed == walk.count,
                ListStage::Failed => walk.failure is Some,
                _ => walk.failure is None && walk.count == 0,
            }
            &&& walk.failure matches Some(f) ==> match f.call {
                ListCall::CreateEnumerator => true,
                ListCall::Enumerate => true,
                ListCall::GetCount => f.code != S_OK,
                ListCall::Item(i) => i == walk.listed < walk.count,
                ListCall::GetId => walk.listed < walk.count,
                _ => false,
            }
            &&& walk.stage is ReleaseItem && walk.failure is Some ==> walk.failure->0.call is GetId
        }),
    decreases replies.len(),
{
    if replies.len() > 0 {
        lemma_walk_fits(replies.drop_last());
    }
}

/// The name under which a call's failure is reported.
pub open spec fn failed_call(call: ListCall) -> Seq<char> {
    match call {
        ListCall::CreateEnumerator => "CoCreateInstance(MMDeviceEnumerator)"@,
        ListCall::Enumerate => "IMMDeviceEnumerator::EnumAudioEndpoints"@,
        ListCall::GetCount => "IMMDeviceCollection::GetCount"@,
        ListCall::Item(_) => "IMMDeviceCollection::Item"@,
        ListCall::GetId => "IMMDevice::GetId"@,
        _ => ""@,
    }
}

fn failed_call_name(call: ListCall) -> (name: &'static str)
    ensures
        name@ == failed_call(call),
{
    match call {
        ListCall::CreateEnumerator => "CoCreateInstance(MMDeviceEnumerator)",
        ListCall::Enumerate => "IMMDeviceEnumerator::EnumAudioEndpoints",
        ListCall::GetCount => "IMMDeviceCollection::GetCount",
        ListCall::Item(_) => "IMMDeviceCollection::Item",
        ListCall::GetId => "IMMDevice::GetId",
        _ => "",
    }
}

/// The error a failed walk is reported with.
pub fn walk_error(failure: ListFailure) -> (error: Error)
    ensures
        error.is_runtime(
            "wasapi"@,
            failed_call(failure.call) + " HRESULT="@ + crate::text::status_hex(failure.code),
        ),
{
    let mut detail = String::new();
    detail.append(failed_call_name(failure.call));
    detail.append(" HRESULT=");
    push_status_hex(&mut detail, failure.code);
    assert(detail@ =~= failed_call(failure.call) + " HRESULT="@ + crate::text::status_hex(
        failure.code,
    ));
    Error::Runtime { backend: "wasapi", detail }
}

} // verus!
