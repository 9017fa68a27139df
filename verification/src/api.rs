use vstd::prelude::*;
use vstd::string::StringExecFns;

use crate::strutil::dec_str_spec;
use crate::strutil::u64_to_string;
use crate::urlenc::urlencode;
use crate::urlenc::urlencoded;

verus! {

/// Configuration of the measurement client: the bearer token that
/// authenticates data queries, and the base API URL.
#[derive(Debug, Clone)]
pub struct ApiCli {
    access_token: String,
    base_url: String,
}

/// A measurement query: the action tag plus optional filters. An absent
/// filter is omitted from the wire form, never sent empty.
#[derive(Debug, Clone, PartialEq, Default)]
pub struct GetMeasRequest {
    pub action: String,
    pub meastype: Option<u64>,
    pub meastypes: Option<Vec<u64>>,
    pub category: Option<u64>,
    pub startdate: Option<u64>,
    pub enddate: Option<u64>,
    pub offset: Option<u64>,
    pub lastupdate: Option<u64>,
}

impl ApiCli {
    /// The configured bearer token.
    pub closed spec fn access_token_spec(&self) -> Seq<char> {
        self.access_token@
    }

    /// The configured base API URL.
    pub closed spec fn base_url_spec(&self) -> Seq<char> {
        self.base_url@
    }

    pub fn new(access_token: String, base_url: String) -> (r: ApiCli)
        ensures
            r.access_token_spec() == access_token@,
            r.base_url_spec() == base_url@,
    {
        ApiCli { access_token, base_url }
    }

    /// The measurement endpoint below the configured base URL.
    pub fn measure_url(&self) -> (r: String)
        ensures
            r@ == self.base_url_spec() + "/measure"@,
    {
        let mut url = self.base_url.clone();
        url.append("/measure");
        url
    }

    /// The `Authorization` header value carrying the bearer token.
    pub fn authorization_header(&self) -> (r: String)
        ensures
            r@ == "Bearer "@ + self.access_token_spec(),
    {
        let mut h = String::from_str("Bearer ");
        h.append(self.access_token.as_str());
        h
    }
}

/// The comma-joined decimal rendering of a list of measurement types.
pub open spec fn dec_list_spec(vs: Seq<u64>) -> Seq<char>
    decreases vs.len(),
{
    if vs.len() == 0 {
        Seq::<char>::empty()
    } else if vs.len() == 1 {
        dec_str_spec(vs[0] as nat)
    } else {
        dec_list_spec(vs.drop_last()) + seq![','] + dec_str_spec(vs.last() as nat)
    }
}

/// Joins the decimal renderings of `vs` with commas.
fn dec_list_to_wire(vs: &Vec<u64>) -> (r: String)
    ensures
        r@ == dec_list_spec(vs@),
{
    let mut s = String::new();
    let mut i: usize = 0;
    while i < vs.len()
        invariant
            i <= vs@.len(),
            s@ == dec_list_spec(vs@.take(i as int)),
        decreases vs@.len() - i,
    {
        if i > 0 {
            s.append(",");
        }
        s.append(u64_to_string(vs[i]).as_str());
        proof {
            reveal_strlit(",");
            let pre = vs@.take(i as int);
            let cur = vs@.take(i as int + 1);
            assert(cur.drop_last() =~= pre);
            assert(cur.last() == vs@[i as int]);
            if i > 0 {
                assert(","@ =~= seq![',']);
            }
            assert(s@ =~= dec_list_spec(cur));
        }
        i += 1;
    }
    proof {
        assert(vs@.take(vs@.len() as int) =~= vs@);
    }
    s
}

/// One optional numeric form parameter: the `&key=` prefix followed by the
/// decimal value when present, nothing when absent.
pub open spec fn opt_u64_param(prefix: Seq<char>, v: Option<u64>) -> Seq<char> {
    match v {
        Some(n) => prefix + dec_str_spec(n as nat),
        None => Seq::<char>::empty(),
    }
}

/// Appends one optional numeric form parameter to `body`.
fn append_opt_u64(body: &mut String, prefix: &'static str, v: &Option<u64>)
    ensures
        final(body)@ == old(body)@ + opt_u64_param(prefix@, *v),
{
    match v {
        Some(n) => {
            body.append(prefix);
            body.append(u64_to_string(*n).as_str());
            proof {
                assert(body@ =~= old(body)@ + opt_u64_param(prefix@, *v));
            }
        },
        None => {
            proof {
                assert(body@ =~= old(body)@ + opt_u64_param(prefix@, *v));
            }
        },
    }
}

/// The optional measurement-type-list parameter: `&meastypes=<list>` with
/// the values comma-joined, nothing when absent.
pub open spec fn opt_meastypes_param(v: Option<Vec<u64>>) -> Seq<char> {
    match v {
        Some(vs) => "&meastypes="@ + dec_list_spec(vs@),
        None => Seq::<char>::empty(),
    }
}

/// The form-encoded wire body of a measurement query: the action first,
/// then each present filter in declaration order; absent filters are
/// omitted altogether.
pub open spec fn meas_form_spec(r: GetMeasRequest) -> Seq<char> {
    "action="@ + urlencoded(r.action@) + opt_u64_param("&meastype="@, r.meastype)
        + opt_meastypes_param(r.meastypes) + opt_u64_param("&category="@, r.category)
        + opt_u64_param("&startdate="@, r.startdate) + opt_u64_param("&enddate="@, r.enddate)
        + opt_u64_param("&offset="@, r.offset) + opt_u64_param("&lastupdate="@, r.lastupdate)
}

impl GetMeasRequest {
    /// Serializes the query as its `application/x-www-form-urlencoded`
    /// wire body.
    pub fn to_form_body(&self) -> (r: String)
        ensures
            r@ == meas_form_spec(*self),
    {
        let mut body = String::from_str("action=");
        body.append(urlencode(self.action.as_str()).as_str());
        append_opt_u64(&mut body, "&meastype=", &self.meastype);
        match &self.meastypes {
            Some(vs) => {
                body.append("&meastypes=");
                body.append(dec_list_to_wire(vs).as_str());
            },
            None => {},
        }
        proof {
            assert(body@ =~= "action="@ + urlencoded(self.action@) + opt_u64_param(
                "&meastype="@,
                self.meastype,
            ) + opt_meastypes_param(self.meastypes));
        }
        append_opt_u64(&mut body, "&category=", &self.category);
        append_opt_u64(&mut body, "&startdate=", &self.startdate);
        append_opt_u64(&mut body, "&enddate=", &self.enddate);
        append_opt_u64(&mut body, "&offset=", &self.offset);
        append_opt_u64(&mut body, "&lastupdate=", &self.lastupdate);
        proof {
            assert(body@ =~= meas_form_spec(*self));
        }
        body
    }
}

} // verus!
