use vstd::prelude::*;

use crate::address::{http_scheme, is_onion_host, parsed_uri, validation, TargetView};
use crate::error::FetchError;
use crate::http::get_plan;
use crate::session::{
    begin_spec, connect_spec, finish_spec, initial_session, install_spec, observed,
    published, read_spec, ready, wait_spec, BootstrapStatus, BootstrapStep, Phase,
    SessionView,
};

verus! {

/// A URL whose host is not an onion-service address is refused as a
/// disallowed domain, and a GET of it orders no stream, whatever state the
/// session is in.
pub proof fn law_foreign_host_refused(url: Seq<char>, s: SessionView)
    requires
        parsed_uri(url) is Some,
        parsed_uri(url)->0.host is Some,
        !is_onion_host(parsed_uri(url)->0.host->0),
    ensures
        validation(parsed_uri(url)) == Err::<TargetView, FetchError>(FetchError::DisallowedDomain),
        get_plan(url, s) == Err::<TargetView, FetchError>(FetchError::DisallowedDomain),
{
}

/// A URL on an onion-service host whose scheme is anything but plain HTTP
/// is refused as a disallowed scheme.
pub proof fn law_foreign_scheme_refused(url: Seq<char>, s: SessionView)
    requires
        parsed_uri(url) is Some,
        parsed_uri(url)->0.host is Some,
        is_onion_host(parsed_uri(url)->0.host->0),
        parsed_uri(url)->0.scheme is Some,
        parsed_uri(url)->0.scheme->0 != http_scheme(),
    ensures
        validation(parsed_uri(url)) == Err::<TargetView, FetchError>(FetchError::DisallowedScheme),
        get_plan(url, s) == Err::<TargetView, FetchError>(FetchError::DisallowedScheme),
{
}

/// A new session is not ready, and the only step that makes a session
/// ready is the successful end of a bootstrap run.
pub proof fn law_ready_only_after_bootstrap(s: SessionView, ok: bool)
    requires
        !ready(s),
    ensures
        !ready(initial_session()),
        !ready(install_spec(s).0),
        !ready(begin_spec(s).0),
        ready(finish_spec(s, ok)) ==> ok,
{
}

/// Two bootstrap requests, the second made while the run of the first is in
/// progress, start one underlying run; once it succeeds, both callers
/// observe success and further requests start none.
pub proof fn law_bootstrap_runs_once(s: SessionView)
    requires
        s.phase == Phase::Created,
    ensures
        ({
            let (s1, first) = begin_spec(s);
            let (s2, second) = begin_spec(s1);
            let s3 = finish_spec(s2, true);
            &&& first == BootstrapStep::Run
            &&& second == BootstrapStep::Wait
            &&& s3.runs == s.runs + 1
            &&& wait_spec(s3) == Some(Ok::<(), FetchError>(()))
            &&& begin_spec(s3) == (s3, BootstrapStep::Done)
        }),
{
}

/// Of two clients built by racing initializers, exactly one is kept.
pub proof fn law_one_client_kept(s: SessionView)
    requires
        s.phase == Phase::Uninitialized,
    ensures
        ({
            let (s1, first) = install_spec(s);
            let (s2, second) = install_spec(s1);
            &&& first
            &&& !second
            &&& s2 == s1
            &&& s1.phase == Phase::Created
        }),
{
}

/// Before the session is ready, a connection request fails with `NotReady`,
/// and so does a GET of an allowed URL: no stream is ordered.
pub proof fn law_connect_needs_ready(s: SessionView, host: Seq<char>, port: u16, url: Seq<char>)
    requires
        !ready(s),
    ensures
        connect_spec(s, host, port) == Err::<(Seq<char>, u16), FetchError>(FetchError::NotReady),
        validation(parsed_uri(url)) is Ok ==> get_plan(url, s) == Err::<TargetView, FetchError>(
            FetchError::NotReady,
        ),
{
}

proof fn lemma_published(log: Seq<BootstrapStatus>, emitted: Seq<BootstrapStatus>)
    ensures
        published(log, emitted) == log + emitted,
    decreases emitted.len(),
{
    if emitted.len() == 0 {
        assert(log + emitted =~= log);
    } else {
        lemma_published(log, emitted.drop_last());
        assert(log + emitted =~= (log + emitted.drop_last()).push(emitted.last()));
    }
}

proof fn lemma_observed(log: Seq<BootstrapStatus>, cursor: nat, n: nat)
    requires
        cursor + n <= log.len(),
    ensures
        observed(log, cursor, n) == log.subrange(cursor as int, (cursor + n) as int).map_values(
            |e: BootstrapStatus| Some(e),
        ),
    decreases n,
{
    if n == 0 {
        assert(observed(log, cursor, n) =~= log.subrange(cursor as int, (cursor + n) as int).map_values(
            |e: BootstrapStatus| Some(e),
        ));
    } else {
        lemma_observed(log, cursor + 1, (n - 1) as nat);
        assert(observed(log, cursor, n) =~= log.subrange(cursor as int, (cursor + n) as int).map_values(
            |e: BootstrapStatus| Some(e),
        ));
    }
}

/// Bootstrap statuses reach a subscriber in the order in which they were
/// published, each exactly once: a subscriber that stands at the end of the
/// log reads the statuses published after it, in order, and then nothing.
pub proof fn law_feed_order(history: Seq<BootstrapStatus>, emitted: Seq<BootstrapStatus>)
    ensures
        observed(published(history, emitted), history.len(), emitted.len()) == emitted.map_values(
            |e: BootstrapStatus| Some(e),
        ),
        read_spec(published(history, emitted), history.len() + emitted.len()).0 is None,
{
    lemma_published(history, emitted);
    let log = history + emitted;
    lemma_observed(log, history.len(), emitted.len());
    assert(log.subrange(history.len() as int, (history.len() + emitted.len()) as int) =~= emitted);
}

} // verus!
