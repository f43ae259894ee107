use vstd::prelude::*;

verus! {

/// The two knobs that one probe run varies.
#[derive(Clone, Copy, Debug, PartialEq, Eq, Structural)]
pub struct RunConfig {
    /// Whether the HTTP/3 handshake advertises inert "grease" settings.
    pub send_grease: bool,
    /// Whether the request carries an explicit `Content-Length` header.
    pub send_content_length: bool,
}

/// The runs of one probe, in the order in which they are made.
pub open spec fn spec_schedule() -> Seq<RunConfig> {
    seq![
        RunConfig { send_grease: true, send_content_length: false },
        RunConfig { send_grease: true, send_content_length: true },
        RunConfig { send_grease: false, send_content_length: false },
        RunConfig { send_grease: false, send_content_length: true },
    ]
}

/// The four configurations, in the order in which the probe runs them.
pub fn schedule() -> (r: Vec<RunConfig>)
    ensures
        r@ == spec_schedule(),
{
    let r = vec![
        RunConfig { send_grease: true, send_content_length: false },
        RunConfig { send_grease: true, send_content_length: true },
        RunConfig { send_grease: false, send_content_length: false },
        RunConfig { send_grease: false, send_content_length: true },
    ];
    assert(r@ =~= spec_schedule());
    r
}

} // verus!
