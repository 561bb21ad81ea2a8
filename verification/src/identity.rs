//! Vehicle identity extraction from X.509 naming fields.
//!
//! A device's identity is a pair of identifiers carried in a certificate
//! Common Name as two whitespace-separated tagged tokens, `VIN:<value>` and
//! `DEVICE:<value>`. The tokens may come in either order, other tokens are
//! ignored, and a later tagged token overrides an earlier one. Whitespace
//! here is the ASCII set: space, tab, carriage return and line feed.

use vstd::prelude::*;

verus! {

use vstd::string::StrSliceExecFns;

/// Errors from extracting a vehicle identity out of a Common Name or
/// Distinguished Name string.
#[derive(Debug, Clone, Copy, PartialEq, Eq, Structural)]
pub enum IdentityError {
    /// The Common Name holds no `VIN:` tag or no `DEVICE:` tag.
    TagsMissing,
    /// The Distinguished Name holds no `CN=` component.
    NoCommonName,
}

/// A two-field device identity: vehicle identifier and device identifier.
#[derive(Debug, Clone)]
pub struct VehicleInfo {
    pub vin: String,
    pub device_id: String,
}

impl View for VehicleInfo {
    type V = (Seq<char>, Seq<char>);

    open spec fn view(&self) -> (Seq<char>, Seq<char>) {
        (self.vin@, self.device_id@)
    }
}

impl PartialEq for VehicleInfo {
    /// Structural equality: both fields must match exactly.
    fn eq(&self, other: &Self) -> (r: bool) {
        self.vin == other.vin && self.device_id == other.device_id
    }
}

impl vstd::std_specs::cmp::PartialEqSpecImpl for VehicleInfo {
    open spec fn obeys_eq_spec() -> bool {
        true
    }

    open spec fn eq_spec(&self, other: &Self) -> bool {
        self.vin@ == other.vin@ && self.device_id@ == other.device_id@
    }
}

/// A raw Distinguished Name string as read off a certificate subject,
/// holding components such as `CN=...` separated by commas.
#[derive(Debug, Clone)]
pub struct VehicleInfoHolder(pub String);

impl View for VehicleInfoHolder {
    type V = Seq<char>;

    open spec fn view(&self) -> Seq<char> {
        self.0@
    }
}

impl From<String> for VehicleInfoHolder {
    fn from(value: String) -> (r: Self) {
        VehicleInfoHolder(value)
    }
}

impl vstd::std_specs::convert::FromSpecImpl<String> for VehicleInfoHolder {
    open spec fn obeys_from_spec() -> bool {
        true
    }

    open spec fn from_spec(t: String) -> Self {
        VehicleInfoHolder(t)
    }
}

pub open spec fn is_space_char(c: char) -> bool {
    c == ' ' || c == '\t' || c == '\n' || c == '\r'
}

pub open spec fn starts_with_vin_tag(t: Seq<char>) -> bool {
    t.len() >= 4 && t[0] == 'V' && t[1] == 'I' && t[2] == 'N' && t[3] == ':'
}

pub open spec fn starts_with_device_tag(t: Seq<char>) -> bool {
    t.len() >= 7 && t[0] == 'D' && t[1] == 'E' && t[2] == 'V' && t[3] == 'I' && t[4] == 'C'
        && t[5] == 'E' && t[6] == ':'
}

/// One whitespace-separated token applied to the partial identity `st`
/// (found vehicle identifier, found device identifier): a `VIN:`-tagged
/// token sets the first field, a `DEVICE:`-tagged token the second, and
/// any other token leaves `st` unchanged.
pub open spec fn apply_cn_token(
    st: (Option<Seq<char>>, Option<Seq<char>>),
    t: Seq<char>,
) -> (Option<Seq<char>>, Option<Seq<char>>) {
    if starts_with_vin_tag(t) {
        (Some(t.skip(4)), st.1)
    } else if starts_with_device_tag(t) {
        (st.0, Some(t.skip(7)))
    } else {
        st
    }
}

/// Folds the whitespace-separated tokens of `s` over the partial identity
/// `st`, with `cur` the (still unfinished) token read so far.
pub open spec fn scan_cn(
    s: Seq<char>,
    cur: Seq<char>,
    st: (Option<Seq<char>>, Option<Seq<char>>),
) -> (Option<Seq<char>>, Option<Seq<char>>)
    decreases s.len(),
{
    if s.len() == 0 {
        if cur.len() > 0 {
            apply_cn_token(st, cur)
        } else {
            st
        }
    } else if is_space_char(s[0]) {
        scan_cn(
            s.skip(1),
            Seq::empty(),
            if cur.len() > 0 {
                apply_cn_token(st, cur)
            } else {
                st
            },
        )
    } else {
        scan_cn(s.skip(1), cur.push(s[0]), st)
    }
}

/// The identity a Common Name string carries: the values of its `VIN:` and
/// `DEVICE:` tokens, or nothing if either tag is absent.
pub open spec fn cn_identity(s: Seq<char>) -> Option<(Seq<char>, Seq<char>)> {
    match scan_cn(s, Seq::empty(), (None, None)) {
        (Some(v), Some(d)) => Some((v, d)),
        _ => None,
    }
}

/// What a trimmed Distinguished Name component contributes: the value after
/// a leading `CN=`, or nothing.
pub open spec fn cn_in_component(c: Seq<char>) -> Option<Seq<char>> {
    let t = trim_spec(c);
    if t.len() >= 3 && t[0] == 'C' && t[1] == 'N' && t[2] == '=' {
        Some(t.skip(3))
    } else {
        None
    }
}

/// The Common Name value of the first comma-separated component of `s`
/// that, once trimmed, starts with `CN=`; `cur` is the component read so far.
pub open spec fn find_cn(s: Seq<char>, cur: Seq<char>) -> Option<Seq<char>>
    decreases s.len(),
{
    if s.len() == 0 {
        cn_in_component(cur)
    } else if s[0] == ',' {
        match cn_in_component(cur) {
            Some(v) => Some(v),
            None => find_cn(s.skip(1), Seq::empty()),
        }
    } else {
        find_cn(s.skip(1), cur.push(s[0]))
    }
}

/// The identity carried by a full Distinguished Name string: the identity
/// of its first `CN=` component, if any.
pub open spec fn dn_identity(s: Seq<char>) -> Option<(Seq<char>, Seq<char>)> {
    match find_cn(s, Seq::empty()) {
        Some(v) => cn_identity(v),
        None => None,
    }
}

pub open spec fn trim_start_spec(s: Seq<char>) -> Seq<char>
    decreases s.len(),
{
    if s.len() > 0 && is_space_char(s[0]) {
        trim_start_spec(s.skip(1))
    } else {
        s
    }
}

pub open spec fn trim_end_spec(s: Seq<char>) -> Seq<char>
    decreases s.len(),
{
    if s.len() > 0 && is_space_char(s[s.len() - 1]) {
        trim_end_spec(s.take(s.len() - 1))
    } else {
        s
    }
}

/// `s` without its leading and trailing whitespace.
pub open spec fn trim_spec(s: Seq<char>) -> Seq<char> {
    trim_end_spec(trim_start_spec(s))
}

fn is_space_exec(c: char) -> (b: bool)
    ensures
        b == is_space_char(c),
{
    c == ' ' || c == '\t' || c == '\n' || c == '\r'
}

/// Returns the slice of `s` without leading and trailing ASCII whitespace.
fn trim_ws<'a>(s: &'a str) -> (r: &'a str)
    ensures
        r@ == trim_spec(s@),
{
    let n: usize = s.unicode_len();
    let mut lo: usize = 0;
    proof {
        assert(s@.skip(0) =~= s@);
    }
    while lo < n && is_space_exec(s.get_char(lo))
        invariant
            lo <= n,
            n == s@.len(),
            trim_start_spec(s@) == trim_start_spec(s@.skip(lo as int)),
        decreases n - lo,
    {
        proof {
            assert(s@.skip(lo as int).skip(1) =~= s@.skip(lo as int + 1));
        }
        lo = lo + 1;
    }
    proof {
        assert(trim_start_spec(s@.skip(lo as int)) == s@.skip(lo as int));
    }
    let mut hi: usize = n;
    while hi > lo && is_space_exec(s.get_char(hi - 1))
        invariant
            lo <= hi <= n,
            n == s@.len(),
            trim_start_spec(s@) == s@.skip(lo as int),
            trim_end_spec(s@.skip(lo as int)) == trim_end_spec(s@.subrange(lo as int, hi as int)),
        decreases hi,
    {
        proof {
            assert(s@.subrange(lo as int, hi as int).len() == hi - lo);
            assert(s@.subrange(lo as int, hi as int)[hi - lo - 1] == s@[hi as int - 1]);
            assert(s@.subrange(lo as int, hi as int).take(hi - lo - 1) =~= s@.subrange(
                lo as int,
                hi as int - 1,
            ));
        }
        hi = hi - 1;
    }
    proof {
        assert(s@.skip(lo as int) =~= s@.subrange(lo as int, n as int));
        assert(trim_end_spec(s@.subrange(lo as int, hi as int)) == s@.subrange(
            lo as int,
            hi as int,
        ));
    }
    s.substring_char(lo, hi)
}

pub open spec fn opt_string_view(o: Option<String>) -> Option<Seq<char>> {
    match o {
        Some(s) => Some(s@),
        None => None,
    }
}

/// Applies one whitespace-separated token to the partial identity held in
/// `vin` and `device`, exactly as `apply_cn_token` says.
fn apply_token_exec(tok: &str, vin: &mut Option<String>, device: &mut Option<String>)
    ensures
        ({
            let st = apply_cn_token((opt_string_view(*old(vin)), opt_string_view(*old(device))), tok@);
            opt_string_view(*final(vin)) == st.0 && opt_string_view(*final(device)) == st.1
        }),
{
    let len: usize = tok.unicode_len();
    if len >= 4 && tok.get_char(0) == 'V' && tok.get_char(1) == 'I' && tok.get_char(2) == 'N'
        && tok.get_char(3) == ':' {
        *vin = Some(tok.substring_char(4, len).to_owned());
    } else if len >= 7 && tok.get_char(0) == 'D' && tok.get_char(1) == 'E' && tok.get_char(2) == 'V'
        && tok.get_char(3) == 'I' && tok.get_char(4) == 'C' && tok.get_char(5) == 'E'
        && tok.get_char(6) == ':' {
        *device = Some(tok.substring_char(7, len).to_owned());
    }
}

impl VehicleInfoHolder {
    /// Extracts the vehicle identity from a bare Common Name string: both a
    /// `VIN:` and a `DEVICE:` token must be present among its
    /// whitespace-separated tokens.
    pub fn parse_from_cn(cn: &str) -> (r: Result<VehicleInfo, IdentityError>)
        ensures
            match r {
                Ok(vi) => cn_identity(cn@) == Some(vi@),
                Err(e) => cn_identity(cn@) is None && e == IdentityError::TagsMissing,
            },
    {
        let n: usize = cn.unicode_len();
        let mut vin: Option<String> = None;
        let mut device: Option<String> = None;
        let mut tok_start: usize = 0;
        let mut i: usize = 0;
        proof {
            assert(cn@.skip(0) =~= cn@);
            assert(cn@.subrange(0, 0) =~= Seq::<char>::empty());
        }
        while i < n
            invariant
                tok_start <= i <= n,
                n == cn@.len(),
                scan_cn(
                    cn@.skip(i as int),
                    cn@.subrange(tok_start as int, i as int),
                    (opt_string_view(vin), opt_string_view(device)),
                ) == scan_cn(cn@, Seq::empty(), (None, None)),
            decreases n - i,
        {
            let c = cn.get_char(i);
            proof {
                assert(cn@.skip(i as int)[0] == cn@[i as int]);
                assert(cn@.skip(i as int).skip(1) =~= cn@.skip(i as int + 1));
            }
            if is_space_exec(c) {
                if tok_start < i {
                    let tok = cn.substring_char(tok_start, i);
                    apply_token_exec(tok, &mut vin, &mut device);
                } else {
                    proof {
                        assert(cn@.subrange(tok_start as int, i as int).len() == 0);
                    }
                }
                i = i + 1;
                tok_start = i;
                proof {
                    assert(cn@.subrange(tok_start as int, i as int) =~= Seq::<char>::empty());
                }
            } else {
                proof {
                    assert(cn@.subrange(tok_start as int, i as int).push(cn@[i as int]) =~= cn@
                        .subrange(tok_start as int, i as int + 1));
                }
                i = i + 1;
            }
        }
        proof {
            assert(cn@.skip(n as int) =~= Seq::<char>::empty());
        }
        if tok_start < n {
            let tok = cn.substring_char(tok_start, n);
            apply_token_exec(tok, &mut vin, &mut device);
        } else {
            proof {
                assert(cn@.subrange(tok_start as int, n as int).len() == 0);
            }
        }
        match (vin, device) {
            (Some(v), Some(d)) => Ok(VehicleInfo { vin: v, device_id: d }),
            _ => Err(IdentityError::TagsMissing),
        }
    }

    /// Finds the first `CN=` component of the Distinguished Name and extracts
    /// the vehicle identity from its value.
    pub fn parse_vehicleinfo(&self) -> (r: Result<VehicleInfo, IdentityError>)
        ensures
            match find_cn(self@, Seq::empty()) {
                Some(v) => match r {
                    Ok(vi) => cn_identity(v) == Some(vi@),
                    Err(e) => cn_identity(v) is None && e == IdentityError::TagsMissing,
                },
                None => r == Err::<VehicleInfo, IdentityError>(IdentityError::NoCommonName),
            },
            r is Ok ==> dn_identity(self@) == Some(r->Ok_0@),
    {
        let s: &str = self.0.as_str();
        let n: usize = s.unicode_len();
        let mut comp_start: usize = 0;
        let mut i: usize = 0;
        proof {
            assert(s@.skip(0) =~= s@);
            assert(s@.subrange(0, 0) =~= Seq::<char>::empty());
        }
        while i < n
            invariant
                comp_start <= i <= n,
                n == s@.len(),
                s@ == self@,
                find_cn(s@.skip(i as int), s@.subrange(comp_start as int, i as int)) == find_cn(
                    s@,
                    Seq::empty(),
                ),
            decreases n - i,
        {
            let c = s.get_char(i);
            proof {
                assert(s@.skip(i as int)[0] == s@[i as int]);
                assert(s@.skip(i as int).skip(1) =~= s@.skip(i as int + 1));
            }
            if c == ',' {
                let comp = s.substring_char(comp_start, i);
                let t = trim_ws(comp);
                let tn: usize = t.unicode_len();
                if tn >= 3 && t.get_char(0) == 'C' && t.get_char(1) == 'N' && t.get_char(2) == '=' {
                    return Self::parse_from_cn(t.substring_char(3, tn));
                }
                i = i + 1;
                comp_start = i;
                proof {
                    assert(s@.subrange(comp_start as int, i as int) =~= Seq::<char>::empty());
                }
            } else {
                proof {
                    assert(s@.subrange(comp_start as int, i as int).push(s@[i as int]) =~= s@
                        .subrange(comp_start as int, i as int + 1));
                }
                i = i + 1;
            }
        }
        proof {
            assert(s@.skip(n as int) =~= Seq::<char>::empty());
        }
        let comp = s.substring_char(comp_start, n);
        let t = trim_ws(comp);
        let tn: usize = t.unicode_len();
        if tn >= 3 && t.get_char(0) == 'C' && t.get_char(1) == 'N' && t.get_char(2) == '=' {
            return Self::parse_from_cn(t.substring_char(3, tn));
        }
        Err(IdentityError::NoCommonName)
    }
}

/// A Common Name built from a vehicle identifier and a device identifier:
/// `VIN:<v> DEVICE:<d>`.
pub open spec fn tagged_cn(v: Seq<char>, d: Seq<char>) -> Seq<char> {
    seq!['V', 'I', 'N', ':'] + v + seq![' '] + seq!['D', 'E', 'V', 'I', 'C', 'E', ':'] + d
}

proof fn lemma_scan_nonspace(
    t: Seq<char>,
    rest: Seq<char>,
    cur: Seq<char>,
    st: (Option<Seq<char>>, Option<Seq<char>>),
)
    requires
        forall|i: int| 0 <= i < t.len() ==> !is_space_char(t[i]),
    ensures
        scan_cn(t + rest, cur, st) == scan_cn(rest, cur + t, st),
    decreases t.len(),
{
    if t.len() == 0 {
        assert(t + rest =~= rest);
        assert(cur + t =~= cur);
    } else {
        assert((t + rest)[0] == t[0]);
        assert((t + rest).skip(1) =~= t.skip(1) + rest);
        lemma_scan_nonspace(t.skip(1), rest, cur.push(t[0]), st);
        assert(cur.push(t[0]) + t.skip(1) =~= cur + t);
    }
}

/// Round trip: a Common Name built as `VIN:<v> DEVICE:<d>` parses back to
/// exactly the pair `(v, d)`, for any values free of whitespace.
pub proof fn lemma_cn_round_trip(v: Seq<char>, d: Seq<char>)
    requires
        forall|i: int| 0 <= i < v.len() ==> !is_space_char(v[i]),
        forall|i: int| 0 <= i < d.len() ==> !is_space_char(d[i]),
    ensures
        cn_identity(tagged_cn(v, d)) == Some((v, d)),
{
    let vin_tok = seq!['V', 'I', 'N', ':'] + v;
    let dev_tok = seq!['D', 'E', 'V', 'I', 'C', 'E', ':'] + d;
    let st0: (Option<Seq<char>>, Option<Seq<char>>) = (None, None);
    assert(tagged_cn(v, d) =~= vin_tok + (seq![' '] + dev_tok));
    assert forall|i: int| 0 <= i < vin_tok.len() implies !is_space_char(vin_tok[i]) by {
        if i < 4 {
            assert(vin_tok[i] == seq!['V', 'I', 'N', ':'][i]);
        } else {
            assert(vin_tok[i] == v[i - 4]);
        }
    }
    lemma_scan_nonspace(vin_tok, seq![' '] + dev_tok, Seq::empty(), st0);
    assert(Seq::empty() + vin_tok =~= vin_tok);
    // The space after the vehicle token finishes it.
    assert((seq![' '] + dev_tok)[0] == ' ');
    assert(starts_with_vin_tag(vin_tok));
    assert(vin_tok.skip(4) =~= v);
    let st1 = (Some(v), st0.1);
    assert(apply_cn_token(st0, vin_tok) == st1);
    assert((seq![' '] + dev_tok).skip(1) =~= dev_tok);
    assert(scan_cn(seq![' '] + dev_tok, vin_tok, st0) == scan_cn(dev_tok, Seq::empty(), st1));
    assert forall|i: int| 0 <= i < dev_tok.len() implies !is_space_char(dev_tok[i]) by {
        if i < 7 {
            assert(dev_tok[i] == seq!['D', 'E', 'V', 'I', 'C', 'E', ':'][i]);
        } else {
            assert(dev_tok[i] == d[i - 7]);
        }
    }
    lemma_scan_nonspace(dev_tok, Seq::empty(), Seq::empty(), st1);
    assert(dev_tok + Seq::empty() =~= dev_tok);
    assert(Seq::empty() + dev_tok =~= dev_tok);
    assert(!starts_with_vin_tag(dev_tok));
    assert(starts_with_device_tag(dev_tok));
    assert(dev_tok.skip(7) =~= d);
    assert(scan_cn(Seq::empty(), dev_tok, st1) == apply_cn_token(st1, dev_tok));
    assert(apply_cn_token(st1, dev_tok) == (Some(v), Some(d)));
}

} // verus!

