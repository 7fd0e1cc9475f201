use vstd::prelude::*;

verus! {

/// What the pipeline reads of an inbound request: the method, the path and
/// the host of its URI, and the forwarded-protocol indicator where the
/// request carries one as text.
///
/// The query string and the other headers are not part of it, so no decision
/// of the pipeline depends on them.
#[derive(Debug, PartialEq, Eq)]
pub struct RequestDescriptor {
    /// The method, as it stands in the request line.
    pub method: String,
    /// The path of the request's URI.
    pub path: String,
    /// The host of the request's URI, where the URI names one.
    pub host: Option<String>,
    /// The client-facing protocol that the front-line terminator reports.
    /// The pipeline takes it on trust: it is to be left out where the request
    /// did not come through a terminator that is trusted to set it.
    pub forwarded_proto: Option<String>,
}

/// What a [`RequestDescriptor`] is in contracts.
pub ghost struct RequestView {
    pub method: Seq<char>,
    pub path: Seq<char>,
    pub host: Option<Seq<char>>,
    pub forwarded_proto: Option<Seq<char>>,
}

impl View for RequestDescriptor {
    type V = RequestView;

    open spec fn view(&self) -> RequestView {
        RequestView {
            method: self.method@,
            path: self.path@,
            host: self.host.deep_view(),
            forwarded_proto: self.forwarded_proto.deep_view(),
        }
    }
}

fn clone_text(text: &Option<String>) -> (copy: Option<String>)
    ensures
        copy == *text,
{
    match text {
        Some(t) => Some(t.clone()),
        None => None,
    }
}

impl Clone for RequestDescriptor {
    fn clone(&self) -> (copy: Self)
        ensures
            copy == *self,
    {
        RequestDescriptor {
            method: self.method.clone(),
            path: self.path.clone(),
            host: clone_text(&self.host),
            forwarded_proto: clone_text(&self.forwarded_proto),
        }
    }
}

} // verus!
