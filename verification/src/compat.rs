//! Decision kernel for the stdio transport's request loop: which way a
//! request or notification goes given the handshake flag. The loop
//! itself reads and writes frames and runs outside this crate.

use vstd::prelude::*;

use crate::strutil::str_eq;

verus! {

/// Where an inbound stdio request is routed.
pub enum CompatDecision {
    /// `initialize` after the handshake already finished: protocol error.
    AlreadyInitialized,
    /// A first `initialize`: run the handshake.
    Initialize,
    /// Anything but `initialize` before the handshake: protocol error.
    NotInitialized,
    /// A `shutdown` request after the handshake.
    Shutdown,
    /// Any other method after the handshake: hand to the handler.
    Delegate,
}

/// Route one request given whether the handshake has completed.
pub fn route_request(initialized: bool, method: &str) -> (r: CompatDecision)
    ensures
        method@ == "initialize"@ ==> r == if initialized {
            CompatDecision::AlreadyInitialized
        } else {
            CompatDecision::Initialize
        },
        method@ == "shutdown"@ ==> r == if initialized {
            CompatDecision::Shutdown
        } else {
            CompatDecision::NotInitialized
        },
        method@ != "initialize"@ && method@ != "shutdown"@ ==> r == if initialized {
            CompatDecision::Delegate
        } else {
            CompatDecision::NotInitialized
        },
{
    proof {
        reveal_strlit("initialize");
        reveal_strlit("shutdown");
        assert("initialize"@.len() == 10);
        assert("shutdown"@.len() == 8);
    }
    if str_eq(method, "initialize") {
        if initialized {
            CompatDecision::AlreadyInitialized
        } else {
            CompatDecision::Initialize
        }
    } else if str_eq(method, "shutdown") {
        if initialized {
            CompatDecision::Shutdown
        } else {
            CompatDecision::NotInitialized
        }
    } else {
        if initialized {
            CompatDecision::Delegate
        } else {
            CompatDecision::NotInitialized
        }
    }
}

/// What the stdio loop does with an inbound notification.
pub enum NotificationAction {
    /// `exit`: leave the loop.
    Exit,
    /// `initialized`: raise the handshake flag.
    MarkInitialized,
    /// Anything else is ignored.
    Ignore,
}

/// Route one notification by method name.
pub fn route_notification(method: &str) -> (r: NotificationAction)
    ensures
        method@ == "exit"@ ==> r is Exit,
        method@ == "initialized"@ ==> r is MarkInitialized,
        method@ != "exit"@ && method@ != "initialized"@ ==> r is Ignore,
{
    proof {
        reveal_strlit("exit");
        reveal_strlit("initialized");
        assert("exit"@.len() == 4);
        assert("initialized"@.len() == 11);
    }
    if str_eq(method, "exit") {
        NotificationAction::Exit
    } else if str_eq(method, "initialized") {
        NotificationAction::MarkInitialized
    } else {
        NotificationAction::Ignore
    }
}

} // verus!
