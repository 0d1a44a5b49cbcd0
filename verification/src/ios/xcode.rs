//! Code signing: which identity and which provisioning profile sign a
//! bundle for a device, and what the signing tool is given.

use vstd::prelude::*;
use vstd::utf8::{decode_utf8, valid_utf8};
use crate::bundle::BuildBundle;
use crate::encoding::from_utf8;
use crate::errors::{Error, ErrorKind};
use crate::invocation::{expect_success, succeeded, Invocation, InvocationView};
use crate::path::with_component;
use crate::path;
use crate::text::{
    begins_with, chars_of, contains, ends_with, finishes_with, join, joined, occurs_in, pieces,
    same, split, starts_with, string_of_range, views, Separator,
};

verus! {

/// A certificate and key that can sign code.
#[derive(Debug)]
pub struct SigningIdentity {
    /// The fingerprint of the certificate.
    pub id: String,
    /// The certificate's common name.
    pub name: String,
    /// The team the certificate was issued to.
    pub team: String,
}

impl Clone for SigningIdentity {
    fn clone(&self) -> (r: Self)
        ensures
            r == *self,
    {
        SigningIdentity { id: self.id.clone(), name: self.name.clone(), team: self.team.clone() }
    }
}

/// An identity and a provisioning profile that together sign for a device.
#[derive(Debug)]
pub struct SignatureSettings {
    pub identity: SigningIdentity,
    /// The path of the profile's file.
    pub file: String,
    /// The entitlements that the profile grants, as the lines of a property
    /// list.
    pub entitlements: String,
    /// The profile's name.
    pub name: String,
    /// The path of the profile's file.
    pub profile: String,
}

impl Clone for SignatureSettings {
    fn clone(&self) -> (r: Self)
        ensures
            r == *self,
    {
        SignatureSettings {
            identity: self.identity.clone(),
            file: self.file.clone(),
            entitlements: self.entitlements.clone(),
            name: self.name.clone(),
            profile: self.profile.clone(),
        }
    }
}

/// What a provisioning profile says.
#[derive(Debug)]
pub struct MobileProvision {
    pub provisioned_devices: Vec<String>,
    pub team_identifier: Vec<String>,
    pub name: String,
}

/// One provisioning profile: its file, the content of the signed message in
/// the file, and what that content says.
#[derive(Debug)]
pub struct Profile {
    pub file: String,
    pub decoded: Vec<u8>,
    pub provision: MobileProvision,
}

/// The description of an application that is written into its bundle.
#[derive(Clone, Debug)]
pub struct InfoPlist<'a> {
    pub cf_bundle_executable: &'a str,
    pub cf_bundle_identifier: &'a str,
    pub ui_required_device_capabilities: Vec<&'a str>,
    pub cf_bundle_version: &'a str,
    pub cf_bundle_short_version_string: &'a str,
}

/// The description of the application `app_bundle_id` built for `arch`, and
/// the path of the file in the bundle that it is written to.
pub fn create_plist_for_app<'a>(bundle: &BuildBundle, arch: &'a str, app_bundle_id: &'a str) -> (r:
    (String, InfoPlist<'a>))
    ensures
        r.0@ == with_component(bundle@.bundle_dir, "Info.plist"@),
        r.1.cf_bundle_executable@ == "Dinghy"@,
        r.1.cf_bundle_identifier@ == app_bundle_id@,
        r.1.ui_required_device_capabilities@.len() == 1,
        r.1.ui_required_device_capabilities@[0]@ == arch@,
        r.1.cf_bundle_version@ == "1"@,
        r.1.cf_bundle_short_version_string@ == "1.0"@,
{
    let file = path::join(bundle.bundle_dir.as_str(), "Info.plist");
    let mut capabilities: Vec<&'a str> = Vec::new();
    capabilities.push(arch);
    (
        file,
        InfoPlist {
            cf_bundle_executable: "Dinghy",
            cf_bundle_identifier: app_bundle_id,
            ui_required_device_capabilities: capabilities,
            cf_bundle_version: "1",
            cf_bundle_short_version_string: "1.0",
        },
    )
}

// ---------------------------------------------------------------------------
// Signing a bundle
// ---------------------------------------------------------------------------

/// The entitlements document: a property list whose dictionary holds the
/// entitlements of the profile.
pub open spec fn entitlements_document(entitlements: Seq<char>) -> Seq<char> {
    "<?xml version=\"1.0\" encoding=\"UTF-8\"?>\n<!DOCTYPE plist PUBLIC \"-//Apple//DTD PLIST 1.0//EN\" \"http://www.apple.com/DTDs/PropertyList-1.0.dtd\">\n<plist version=\"1.0\"><dict>\n"@
        + entitlements + "\n</dict></plist>\n"@
}

/// What signing a bundle takes.
#[derive(Debug)]
pub struct Signing {
    /// The path of the file that the entitlements document is written to.
    pub entitlements_file: String,
    /// The entitlements document.
    pub document: String,
    /// The run of the signing tool.
    pub codesign: Invocation,
}

/// What signing `bundle` with `settings` takes: the entitlements document,
/// written below the bundle's root, and the run of the signing tool with
/// the identity's name, that document and the bundle's directory.
pub fn sign_app(bundle: &BuildBundle, settings: &SignatureSettings) -> (r: Signing)
    ensures
        r.entitlements_file@ == with_component(bundle@.root_dir, "entitlements.xcent"@),
        r.document@ == entitlements_document(settings.entitlements@),
        r.codesign@ =~= InvocationView::plain(
            "codesign"@,
            seq![
                "-s"@,
                settings.identity.name@,
                "--entitlements"@,
                with_component(bundle@.root_dir, "entitlements.xcent"@),
                bundle@.bundle_dir,
            ],
        ),
{
    let entitlements_file = path::join(bundle.root_dir.as_str(), "entitlements.xcent");
    let mut document =
        "<?xml version=\"1.0\" encoding=\"UTF-8\"?>\n<!DOCTYPE plist PUBLIC \"-//Apple//DTD PLIST 1.0//EN\" \"http://www.apple.com/DTDs/PropertyList-1.0.dtd\">\n<plist version=\"1.0\"><dict>\n".to_owned();
    document.append(settings.entitlements.as_str());
    document.append("\n</dict></plist>\n");
    let mut codesign = Invocation::new("codesign");
    codesign.arg("-s");
    codesign.arg(settings.identity.name.as_str());
    codesign.arg("--entitlements");
    codesign.arg(entitlements_file.as_str());
    codesign.arg(bundle.bundle_dir.as_str());
    Signing { entitlements_file, document, codesign }
}

/// The message of a failed signing, which holds the command that failed.
pub open spec fn sign_failure(command: InvocationView) -> Seq<char> {
    "Error signing ("@ + command.line() + ")"@
}

/// What the end of the signing tool means: a bundle is signed only where
/// the tool ended with code 0; any other end is a failure whose message
/// holds the command.
pub fn sign_outcome(code: Option<i32>, command: &Invocation) -> (r: Result<(), Error>)
    ensures
        succeeded(code) ==> r is Ok,
        !succeeded(code) ==> r is Err && r->Err_0.is(
            ErrorKind::Transport,
            sign_failure(command@),
        ),
{
    let mut message = "Error signing (".to_owned();
    message.append(command.to_string().as_str());
    message.append(")");
    expect_success(code, ErrorKind::Transport, message.as_str())
}

// ---------------------------------------------------------------------------
// Signing identities
// ---------------------------------------------------------------------------

/// What a regular expression captures in a text: nothing where the
/// expression is not well formed; where it is, whether it matches, and then
/// for each of its groups, the whole match first, what the group matched.
pub uninterp spec fn captures_of(pattern: Seq<char>, text: Seq<char>) -> Option<
    Option<Seq<Option<Seq<char>>>>,
>;

/// The views of captured groups.
pub open spec fn group_views(groups: Seq<Option<String>>) -> Seq<Option<Seq<char>>> {
    Seq::new(
        groups.len(),
        |i: int|
            match groups[i] {
                Some(s) => Some(s@),
                None => None,
            },
    )
}

/// `Regex::new` and `Regex::captures`: the leftmost match of the pattern in
/// the text, group by group. The result depends on the pattern and on the
/// text alone. Only the pattern of identity lines is taken.
#[verifier::external_body]
fn captures(pattern: &str, text: &str) -> (r: Option<Option<Vec<Option<String>>>>)
    requires
        pattern@ == identity_pattern(),
    ensures
        match captures_of(pattern@, text@) {
            None => r is None,
            Some(None) => r is Some && r->Some_0 is None,
            Some(Some(groups)) => r is Some && r->Some_0 is Some && group_views(
                r->Some_0->Some_0@,
            ) == groups,
        },
{
    let re = regex::Regex::new(pattern).ok()?;
    Some(re.captures(text).map(|c| c.iter().map(|m| m.map(|m| m.as_str().to_owned())).collect()))
}

/// The shape of a line that lists an identity: a number and a closing
/// bracket, the certificate's fingerprint, and the identity's name between
/// double quotes.
pub open spec fn identity_pattern() -> Seq<char> {
    "^ *[0-9]+\\) ([A-Z0-9]{40}) \"(.+)\"$"@
}

/// Whether identities of this name are used: the name starts as the names
/// of development certificates do.
pub open spec fn accepted_name(name: Seq<char>) -> bool {
    begins_with(name, "iPhone Developer: "@) || begins_with(name, "Apple Development:"@)
}

/// The fingerprint and the name that captured groups give, where they are
/// those of an identity that is used.
pub open spec fn identity_of_groups(groups: Seq<Option<Seq<char>>>) -> Option<
    (Seq<char>, Seq<char>),
> {
    if groups.len() == 3 && groups[1] is Some && groups[2] is Some && accepted_name(
        groups[2]->Some_0,
    ) {
        Some((groups[1]->Some_0, groups[2]->Some_0))
    } else {
        None
    }
}

/// The fingerprint and the name that captured groups give.
pub fn identity_from_captures(groups: &Vec<Option<String>>) -> (r: Option<(String, String)>)
    ensures
        match identity_of_groups(group_views(groups@)) {
            Some(pair) => r is Some && r->Some_0.0@ == pair.0 && r->Some_0.1@ == pair.1,
            None => r is None,
        },
{
    if groups.len() != 3 {
        return None;
    }
    assert(group_views(groups@)[1] == match groups@[1] {
        Some(s) => Some(s@),
        None => None,
    });
    assert(group_views(groups@)[2] == match groups@[2] {
        Some(s) => Some(s@),
        None => None,
    });
    match (&groups[1], &groups[2]) {
        (Some(id), Some(name)) => {
            if starts_with(name.as_str(), "iPhone Developer: ") || starts_with(
                name.as_str(),
                "Apple Development:",
            ) {
                Some((id.clone(), name.clone()))
            } else {
                None
            }
        },
        _ => None,
    }
}

/// What one line of the list of identities gives.
pub enum LineOutcome {
    /// The pattern is not well formed.
    BadPattern,
    /// The line lists no identity that is used.
    Nothing,
    /// The fingerprint and the name of an identity.
    Identity(Seq<char>, Seq<char>),
}

/// What the line `line` gives.
pub open spec fn line_outcome(line: Seq<char>) -> LineOutcome {
    match captures_of(identity_pattern(), line) {
        None => LineOutcome::BadPattern,
        Some(None) => LineOutcome::Nothing,
        Some(Some(groups)) => match identity_of_groups(groups) {
            Some(pair) => LineOutcome::Identity(pair.0, pair.1),
            None => LineOutcome::Nothing,
        },
    }
}

/// The identities that the lines list, in order, unless the pattern is not
/// well formed.
pub open spec fn listed(lines: Seq<Seq<char>>) -> Option<Seq<(Seq<char>, Seq<char>)>>
    decreases lines.len(),
{
    if lines.len() == 0 {
        Some(Seq::empty())
    } else {
        match (listed(lines.drop_last()), line_outcome(lines.last())) {
            (Some(head), LineOutcome::Identity(id, name)) => Some(head.push((id, name))),
            (Some(head), LineOutcome::Nothing) => Some(head),
            _ => None,
        }
    }
}

/// Where the pattern fails on one line, it fails on the list.
pub proof fn lemma_listed_none(lines: Seq<Seq<char>>, i: int)
    requires
        0 <= i < lines.len(),
        line_outcome(lines[i]) is BadPattern,
    ensures
        listed(lines) is None,
    decreases lines.len(),
{
    if i < lines.len() - 1 {
        lemma_listed_none(lines.drop_last(), i);
    }
}

/// The identities that the output of the identity query lists, given as
/// text.
pub fn identities_in(text: &str) -> (r: Result<Vec<(String, String)>, Error>)
    ensures
        match listed(pieces(text@, Separator::Char('\n'))) {
            Some(found) => r is Ok && crate::invocation::pair_views(r->Ok_0@) == found,
            None => r is Err && r->Err_0.is(
                ErrorKind::Signing,
                "the pattern of identity lines is not well formed"@,
            ),
        },
{
    let lines = split(text, '\n');
    let mut out: Vec<(String, String)> = Vec::new();
    let mut i: usize = 0;
    while i < lines.len()
        invariant
            i <= lines.len(),
            views(lines@) == pieces(text@, Separator::Char('\n')),
            listed(views(lines@).take(i as int)) == Some(crate::invocation::pair_views(out@)),
        decreases lines.len() - i,
    {
        proof {
            assert(views(lines@).take(i + 1).drop_last() == views(lines@).take(i as int));
            assert(views(lines@).take(i + 1).last() == lines@[i as int]@);
        }
        match captures("^ *[0-9]+\\) ([A-Z0-9]{40}) \"(.+)\"$", lines[i].as_str()) {
            None => {
                proof {
                    lemma_listed_none(views(lines@), i as int);
                }
                return Err(
                    Error::new(
                        ErrorKind::Signing,
                        "the pattern of identity lines is not well formed",
                    ),
                );
            },
            Some(None) => {},
            Some(Some(groups)) => {
                match identity_from_captures(&groups) {
                    Some(pair) => {
                        let ghost prev = out@;
                        out.push(pair);
                        assert(crate::invocation::pair_views(out@)
                            == crate::invocation::pair_views(prev).push((pair.0@, pair.1@)));
                    },
                    None => {},
                }
            },
        }
        i += 1;
    }
    assert(views(lines@).take(lines.len() as int) == views(lines@));
    Ok(out)
}

/// The identities that the output of the identity query lists. Output that
/// is not UTF-8 lists nothing and is a failure.
pub fn find_identities_in(stdout: &[u8]) -> (r: Result<Vec<(String, String)>, Error>)
    ensures
        !valid_utf8(stdout@) ==> r is Err && r->Err_0.is(
            ErrorKind::ProtocolParse,
            "the list of identities is not valid UTF-8"@,
        ),
        valid_utf8(stdout@) ==> match listed(
            pieces(decode_utf8(stdout@), Separator::Char('\n')),
        ) {
            Some(found) => r is Ok && crate::invocation::pair_views(r->Ok_0@) == found,
            None => r is Err && r->Err_0.is(
                ErrorKind::Signing,
                "the pattern of identity lines is not well formed"@,
            ),
        },
{
    match from_utf8(stdout) {
        Some(text) => identities_in(text.as_str()),
        None => Err(
            Error::new(ErrorKind::ProtocolParse, "the list of identities is not valid UTF-8"),
        ),
    }
}

/// The organizational unit in the subject of the first certificate of a PEM
/// text: nothing where the text holds no certificate that can be read or
/// the unit cannot be read as text; else the unit, if the subject has one.
pub uninterp spec fn organizational_unit(pem: Seq<u8>) -> Option<Option<Seq<char>>>;

/// The length beyond which no PEM text is handed to the parser, which
/// takes the length of its input as a 32-bit signed number.
pub const MAX_PEM_LEN: usize = 0x7fff_ffff;

/// The team in the PEM text of a certificate, as far as the text is read:
/// a text longer than `MAX_PEM_LEN` is not read at all.
pub open spec fn team_in(pem: Seq<u8>) -> Option<Option<Seq<char>>> {
    if pem.len() > MAX_PEM_LEN {
        None
    } else {
        organizational_unit(pem)
    }
}

/// `X509::from_pem`, `X509NameRef::entries_by_nid` and
/// `Asn1StringRef::as_utf8`: the certificate is parsed and the first entry
/// of its subject name with the id of the organizational unit is given as
/// UTF-8. The result depends on the bytes alone. The parser panics on a
/// text longer than `MAX_PEM_LEN`, so none such is taken.
#[verifier::external_body]
fn subject_unit(pem: &[u8]) -> (r: Option<Option<String>>)
    requires
        pem@.len() <= MAX_PEM_LEN,
    ensures
        match organizational_unit(pem@) {
            None => r is None,
            Some(None) => r is Some && r->Some_0 is None,
            Some(Some(unit)) => r is Some && r->Some_0 is Some && r->Some_0->Some_0@ == unit,
        },
{
    let x509 = openssl::x509::X509::from_pem(pem).ok()?;
    let unit = openssl::nid::Nid::ORGANIZATIONALUNITNAME;
    match x509.subject_name().entries_by_nid(unit).next() {
        Some(entry) => Some(Some(entry.data().as_utf8().ok()?.to_string())),
        None => Some(None),
    }
}

/// The team that a certificate was issued to: the organizational unit of
/// its subject. A certificate that is too long to be read, that cannot be
/// parsed or that names no unit is a failure.
pub fn get_subject(certificate: &[u8]) -> (r: Result<String, Error>)
    ensures
        match team_in(certificate@) {
            Some(Some(team)) => r is Ok && r->Ok_0@ == team,
            Some(None) => r is Err && r->Err_0.is(
                ErrorKind::Signing,
                "the certificate's subject has no organizational unit"@,
            ),
            None => r is Err && r->Err_0.is(
                ErrorKind::Signing,
                "the certificate cannot be read"@,
            ),
        },
{
    if certificate.len() > MAX_PEM_LEN {
        return Err(Error::new(ErrorKind::Signing, "the certificate cannot be read"));
    }
    match subject_unit(certificate) {
        Some(Some(team)) => Ok(team),
        Some(None) => Err(
            Error::new(ErrorKind::Signing, "the certificate's subject has no organizational unit"),
        ),
        None => Err(Error::new(ErrorKind::Signing, "the certificate cannot be read")),
    }
}

/// The identity with the fingerprint `id` and the name `name`, whose team
/// is read from its certificate.
pub fn signing_identity(id: &str, name: &str, certificate: &[u8]) -> (r: Result<
    SigningIdentity,
    Error,
>)
    ensures
        match team_in(certificate@) {
            Some(Some(team)) => r is Ok && r->Ok_0.id@ == id@ && r->Ok_0.name@ == name@
                && r->Ok_0.team@ == team,
            Some(None) => r is Err && r->Err_0.is(
                ErrorKind::Signing,
                "the certificate's subject has no organizational unit"@,
            ),
            None => r is Err && r->Err_0.is(
                ErrorKind::Signing,
                "the certificate cannot be read"@,
            ),
        },
{
    match get_subject(certificate) {
        Ok(team) => Ok(SigningIdentity { id: id.to_owned(), name: name.to_owned(), team }),
        Err(e) => Err(e),
    }
}

// ---------------------------------------------------------------------------
// Provisioning profiles
// ---------------------------------------------------------------------------

/// The position of the last character `c` in `s`, or -1.
pub open spec fn last_index_of(s: Seq<char>, c: char) -> int
    decreases s.len(),
{
    if s.len() == 0 {
        -1
    } else if s.last() == c {
        s.len() - 1
    } else {
        last_index_of(s.drop_last(), c)
    }
}

/// The name of the file that a path leads to: what follows the last slash.
pub open spec fn file_name(p: Seq<char>) -> Seq<char> {
    p.skip(last_index_of(p, '/') + 1)
}

/// The extension of the file that a path leads to: what follows the last
/// dot of the file's name, unless the name starts with that dot or has
/// none.
pub open spec fn extension(p: Seq<char>) -> Option<Seq<char>> {
    let name = file_name(p);
    let dot = last_index_of(name, '.');
    if dot > 0 {
        Some(name.skip(dot + 1))
    } else {
        None
    }
}

/// Whether the file at `p` is taken for a provisioning profile: its path
/// does not start in the current directory, and its extension is
/// `mobileprovision`.
pub open spec fn is_profile_path(p: Seq<char>) -> bool {
    !(p == "."@ || begins_with(p, "./"@)) && extension(p) == Some("mobileprovision"@)
}

fn last_index(cs: &Vec<char>, from: usize, c: char) -> (r: Option<usize>)
    requires
        from <= cs.len(),
    ensures
        match r {
            Some(i) => from <= i < cs.len() && last_index_of(cs@.skip(from as int), c) == i - from,
            None => last_index_of(cs@.skip(from as int), c) == -1,
        },
{
    let ghost s = cs@.skip(from as int);
    let mut k: usize = cs.len();
    assert(s.take(k - from) == s);
    while k > from
        invariant
            from <= k <= cs.len(),
            s == cs@.skip(from as int),
            last_index_of(s, c) == last_index_of(s.take(k - from), c),
        decreases k,
    {
        proof {
            assert(s.take(k - from).last() == cs@[k - 1]);
            assert(s.take(k - from).drop_last() == s.take(k - from - 1));
        }
        if cs[k - 1] == c {
            return Some(k - 1);
        }
        k -= 1;
    }
    proof {
        assert(s.take(0).len() == 0);
    }
    None
}

/// Whether the file at `p` is taken for a provisioning profile.
pub fn is_profile_file(p: &str) -> (r: bool)
    ensures
        r == is_profile_path(p@),
{
    if same(p, ".") || starts_with(p, "./") {
        return false;
    }
    let cs = chars_of(p);
    proof {
        assert(cs@.skip(0) == cs@);
    }
    let start: usize = match last_index(&cs, 0, '/') {
        Some(i) => i + 1,
        None => 0,
    };
    let ghost name = file_name(p@);
    assert(name == cs@.skip(start as int));
    match last_index(&cs, start, '.') {
        Some(dot) => {
            if dot > start {
                let ext = string_of_range(&cs, dot + 1, cs.len());
                assert(cs@.subrange(dot + 1, cs.len() as int) == name.skip(dot - start + 1));
                same(ext.as_str(), "mobileprovision")
            } else {
                false
            }
        },
        None => false,
    }
}

/// The first position from `from` on of a line that holds `needle`, or the
/// number of lines.
pub open spec fn first_holding(lines: Seq<Seq<char>>, needle: Seq<char>, from: int) -> int
    decreases lines.len() - from,
{
    if from < 0 || from >= lines.len() {
        lines.len() as int
    } else if occurs_in(lines[from], needle) {
        from
    } else {
        first_holding(lines, needle, from + 1)
    }
}

/// The lines of the entitlements in the decoded text of a profile: those
/// that follow the line after the key `Entitlements`, up to the line that
/// closes the dictionary.
pub open spec fn entitlement_lines(text: Seq<char>) -> Seq<Seq<char>> {
    let lines = pieces(text, Separator::Char('\n'));
    let key = first_holding(lines, "<key>Entitlements</key>"@, 0);
    let start = if key + 2 <= lines.len() {
        key + 2
    } else {
        lines.len() as int
    };
    let stop = first_holding(lines, "</dict>"@, start);
    lines.subrange(start, stop)
}

/// The entitlements in the decoded text of a profile.
pub open spec fn entitlements_of(text: Seq<char>) -> Seq<char> {
    joined(entitlement_lines(text), "\n"@)
}

fn find_holding(lines: &Vec<String>, needle: &str, from: usize) -> (r: usize)
    requires
        from <= lines.len(),
    ensures
        r == first_holding(views(lines@), needle@, from as int),
        from <= r <= lines.len(),
{
    let mut i: usize = from;
    while i < lines.len()
        invariant
            from <= i <= lines.len(),
            first_holding(views(lines@), needle@, from as int) == first_holding(
                views(lines@),
                needle@,
                i as int,
            ),
        decreases lines.len() - i,
    {
        assert(views(lines@)[i as int] == lines@[i as int]@);
        if contains(lines[i].as_str(), needle) {
            return i;
        }
        i += 1;
    }
    i
}

/// The entitlements in the decoded text of a profile.
pub fn entitlements_in(text: &str) -> (r: String)
    ensures
        r@ == entitlements_of(text@),
{
    let lines = split(text, '\n');
    assert(views(lines@).len() == lines@.len());
    let key = find_holding(&lines, "<key>Entitlements</key>", 0);
    let start: usize = if lines.len() - key >= 2 {
        key + 2
    } else {
        lines.len()
    };
    let stop = find_holding(&lines, "</dict>", start);
    let mut body: Vec<String> = Vec::new();
    let mut i: usize = start;
    while i < stop
        invariant
            start <= i <= stop <= lines.len(),
            views(body@) == views(lines@).subrange(start as int, i as int),
        decreases stop - i,
    {
        let ghost prev = body@;
        body.push(lines[i].clone());
        assert(views(body@) == views(prev).push(lines@[i as int]@));
        i += 1;
    }
    join(&body, "\n")
}

/// What a profile comes to.
pub enum ProfileOutcome {
    /// The profile does not serve: it is passed over.
    Skipped,
    /// The profile cannot be used and the search fails.
    Failed(ErrorKind, Seq<char>),
    /// The profile serves, with this identity and these entitlements.
    Found(SigningIdentity, Seq<char>),
}

/// Whether `needle` is one of `items`.
pub open spec fn lists(items: Seq<String>, needle: Seq<char>) -> bool {
    exists|i: int| 0 <= i < items.len() && (#[trigger] items[i])@ == needle
}

/// Whether `identity` signs for the team `team`: it is a development
/// identity, by its name, and belongs to the team.
pub open spec fn signs_for(identity: SigningIdentity, team: Seq<char>) -> bool {
    accepted_name(identity.name@) && identity.team@ == team
}

/// The position of the first identity that signs for the team `team`, or
/// the number of identities.
pub open spec fn first_of_team(identities: Seq<SigningIdentity>, team: Seq<char>, from: int) -> int
    decreases identities.len() - from,
{
    if from < 0 || from >= identities.len() {
        identities.len() as int
    } else if signs_for(identities[from], team) {
        from
    } else {
        first_of_team(identities, team, from + 1)
    }
}

/// What the profile `p` comes to for the device `device_id` and the
/// identities at hand. A profile serves where its file is a profile's, it
/// lists the device, its name ends with the application's name, and a
/// development identity belongs to its first team; it then grants the
/// entitlements that its decoded text holds. Identities of any other name
/// are passed over.
pub open spec fn profile_outcome(
    device_id: Seq<char>,
    identities: Seq<SigningIdentity>,
    p: Profile,
) -> ProfileOutcome {
    if !is_profile_path(p.file@) {
        ProfileOutcome::Skipped
    } else if !lists(p.provision.provisioned_devices@, device_id) {
        ProfileOutcome::Skipped
    } else if !finishes_with(p.provision.name@, "Dinghy"@) {
        ProfileOutcome::Skipped
    } else if p.provision.team_identifier@.len() == 0 {
        ProfileOutcome::Failed(ErrorKind::Signing, "empty TeamIdentifier"@)
    } else {
        let k = first_of_team(identities, p.provision.team_identifier@[0]@, 0);
        if k >= identities.len() {
            ProfileOutcome::Skipped
        } else if !valid_utf8(p.decoded@) {
            ProfileOutcome::Failed(ErrorKind::ProtocolParse, "the profile is not valid UTF-8"@)
        } else {
            ProfileOutcome::Found(identities[k], entitlements_of(decode_utf8(p.decoded@)))
        }
    }
}

/// The position that `first_of_team` gives is that of an identity that
/// signs for the team, and no identity before it does.
pub proof fn lemma_first_of_team(identities: Seq<SigningIdentity>, team: Seq<char>, from: int)
    requires
        0 <= from <= identities.len(),
    ensures
        from <= first_of_team(identities, team, from) <= identities.len(),
        first_of_team(identities, team, from) < identities.len() ==> signs_for(
            identities[first_of_team(identities, team, from)],
            team,
        ),
        forall|j: int|
            from <= j < first_of_team(identities, team, from) ==> !signs_for(
                #[trigger] identities[j],
                team,
            ),
    decreases identities.len() - from,
{
    if from < identities.len() && !signs_for(identities[from], team) {
        lemma_first_of_team(identities, team, from + 1);
    }
}

/// A profile that serves is a profile's file, lists the device, has the
/// application's name at the end of its own, and is paired with the first
/// of the identities at hand that is a development identity of the
/// profile's first team.
pub proof fn lemma_profile_found(device_id: Seq<char>, identities: Seq<SigningIdentity>, p: Profile)
    ensures
        profile_outcome(device_id, identities, p) matches ProfileOutcome::Found(identity, e) ==> {
            &&& is_profile_path(p.file@)
            &&& lists(p.provision.provisioned_devices@, device_id)
            &&& finishes_with(p.provision.name@, "Dinghy"@)
            &&& p.provision.team_identifier@.len() > 0
            &&& accepted_name(identity.name@)
            &&& identity.team@ == p.provision.team_identifier@[0]@
            &&& e == entitlements_of(decode_utf8(p.decoded@))
        },
{
    if p.provision.team_identifier@.len() > 0 {
        lemma_first_of_team(identities, p.provision.team_identifier@[0]@, 0);
    }
}

fn lists_item(items: &Vec<String>, needle: &str) -> (r: bool)
    ensures
        r == lists(items@, needle@),
{
    let mut i: usize = 0;
    while i < items.len()
        invariant
            i <= items.len(),
            forall|j: int| 0 <= j < i ==> (#[trigger] items@[j])@ != needle@,
        decreases items.len() - i,
    {
        if same(items[i].as_str(), needle) {
            return true;
        }
        i += 1;
    }
    false
}

fn find_team(identities: &Vec<SigningIdentity>, team: &str) -> (r: usize)
    ensures
        r == first_of_team(identities@, team@, 0),
        r <= identities.len(),
{
    let mut i: usize = 0;
    while i < identities.len()
        invariant
            i <= identities.len(),
            first_of_team(identities@, team@, 0) == first_of_team(identities@, team@, i as int),
        decreases identities.len() - i,
    {
        let name = identities[i].name.as_str();
        if (starts_with(name, "iPhone Developer: ") || starts_with(name, "Apple Development:"))
            && same(identities[i].team.as_str(), team) {
            return i;
        }
        i += 1;
    }
    i
}

/// Whether `s` is the settings that the profile `p` gives with `identity`
/// and `entitlements`.
pub open spec fn settings_of(
    s: SignatureSettings,
    p: Profile,
    identity: SigningIdentity,
    entitlements: Seq<char>,
) -> bool {
    &&& s.identity == identity
    &&& s.file@ == p.file@
    &&& s.entitlements@ == entitlements
    &&& s.name@ == p.provision.name@
    &&& s.profile@ == p.file@
}

/// The settings that the profile `p` gives for the device `device_id`, if
/// it serves.
pub fn profile_settings(device_id: &str, identities: &Vec<SigningIdentity>, p: &Profile) -> (r:
    Result<Option<SignatureSettings>, Error>)
    ensures
        match profile_outcome(device_id@, identities@, *p) {
            ProfileOutcome::Skipped => r is Ok && r->Ok_0 is None,
            ProfileOutcome::Failed(kind, message) => r is Err && r->Err_0.is(kind, message),
            ProfileOutcome::Found(identity, entitlements) => r is Ok && r->Ok_0 is Some
                && settings_of(r->Ok_0->Some_0, *p, identity, entitlements),
        },
{
    if !is_profile_file(p.file.as_str()) {
        return Ok(None);
    }
    if !lists_item(&p.provision.provisioned_devices, device_id) {
        return Ok(None);
    }
    if !ends_with(p.provision.name.as_str(), "Dinghy") {
        return Ok(None);
    }
    if p.provision.team_identifier.len() == 0 {
        return Err(Error::new(ErrorKind::Signing, "empty TeamIdentifier"));
    }
    let k = find_team(identities, p.provision.team_identifier[0].as_str());
    if k >= identities.len() {
        return Ok(None);
    }
    let text = match from_utf8(p.decoded.as_slice()) {
        Some(t) => t,
        None => {
            return Err(Error::new(ErrorKind::ProtocolParse, "the profile is not valid UTF-8"));
        },
    };
    let entitlements = entitlements_in(text.as_str());
    Ok(
        Some(
            SignatureSettings {
                entitlements,
                file: p.file.clone(),
                name: p.provision.name.clone(),
                identity: identities[k].clone(),
                profile: p.file.clone(),
            },
        ),
    )
}

/// What the search through the profiles `profiles` comes to: the number of
/// settings found, or the first failure.
pub open spec fn search(
    device_id: Seq<char>,
    identities: Seq<SigningIdentity>,
    profiles: Seq<Profile>,
) -> Result<Seq<(Profile, SigningIdentity, Seq<char>)>, (ErrorKind, Seq<char>)>
    decreases profiles.len(),
{
    if profiles.len() == 0 {
        Ok(Seq::empty())
    } else {
        match search(device_id, identities, profiles.drop_last()) {
            Err(e) => Err(e),
            Ok(found) => match profile_outcome(device_id, identities, profiles.last()) {
                ProfileOutcome::Skipped => Ok(found),
                ProfileOutcome::Failed(kind, message) => Err((kind, message)),
                ProfileOutcome::Found(identity, entitlements) => Ok(
                    found.push((profiles.last(), identity, entitlements)),
                ),
            },
        }
    }
}

/// Whether the settings `settings` are what the search found.
pub open spec fn all_settings_of(
    settings: Seq<SignatureSettings>,
    found: Seq<(Profile, SigningIdentity, Seq<char>)>,
) -> bool {
    &&& settings.len() == found.len()
    &&& forall|i: int|
        0 <= i < settings.len() ==> settings_of(
            #[trigger] settings[i],
            found[i].0,
            found[i].1,
            found[i].2,
        )
}

/// Each entry that the search finds is a profile that serves, with the
/// identity and the entitlements that it serves with: so the profile lists
/// the device, its name ends with the application's name, and its identity
/// is a development identity of the profile's first team.
pub proof fn lemma_search_entries(
    device_id: Seq<char>,
    identities: Seq<SigningIdentity>,
    profiles: Seq<Profile>,
)
    ensures
        search(device_id, identities, profiles) matches Ok(found) ==> forall|i: int|
            0 <= i < found.len() ==> {
                let entry = #[trigger] found[i];
                &&& profile_outcome(device_id, identities, entry.0) == ProfileOutcome::Found(
                    entry.1,
                    entry.2,
                )
                &&& lists(entry.0.provision.provisioned_devices@, device_id)
                &&& finishes_with(entry.0.provision.name@, "Dinghy"@)
                &&& accepted_name(entry.1.name@)
                &&& entry.0.provision.team_identifier@.len() > 0
                &&& entry.1.team@ == entry.0.provision.team_identifier@[0]@
            },
    decreases profiles.len(),
{
    if profiles.len() > 0 {
        lemma_search_entries(device_id, identities, profiles.drop_last());
        lemma_profile_found(device_id, identities, profiles.last());
        match search(device_id, identities, profiles) {
            Ok(found) => {
                let head = search(device_id, identities, profiles.drop_last())->Ok_0;
                assert forall|i: int| 0 <= i < found.len() implies ({
                    let entry = #[trigger] found[i];
                    &&& profile_outcome(device_id, identities, entry.0) == ProfileOutcome::Found(
                        entry.1,
                        entry.2,
                    )
                    &&& lists(entry.0.provision.provisioned_devices@, device_id)
                    &&& finishes_with(entry.0.provision.name@, "Dinghy"@)
                    &&& accepted_name(entry.1.name@)
                    &&& entry.0.provision.team_identifier@.len() > 0
                    &&& entry.1.team@ == entry.0.provision.team_identifier@[0]@
                }) by {
                    if i < head.len() {
                        assert(found[i] == head[i]);
                    }
                }
            },
            Err(_) => {},
        }
    }
}

/// A search that has failed stays failed when more profiles follow.
pub proof fn lemma_search_fails(
    device_id: Seq<char>,
    identities: Seq<SigningIdentity>,
    profiles: Seq<Profile>,
    i: int,
)
    requires
        0 <= i <= profiles.len(),
        search(device_id, identities, profiles.take(i)) is Err,
    ensures
        search(device_id, identities, profiles) == search(device_id, identities, profiles.take(i)),
    decreases profiles.len() - i,
{
    if i < profiles.len() {
        assert(profiles.take(i + 1).drop_last() == profiles.take(i));
        lemma_search_fails(device_id, identities, profiles, i + 1);
    } else {
        assert(profiles.take(i) == profiles);
    }
}

/// The settings that sign for the device `device_id`: one for each profile
/// that serves, in the order of the profiles. The first profile that
/// cannot be used fails the search.
pub fn look_for_signature_settings(
    device_id: &str,
    identities: &Vec<SigningIdentity>,
    profiles: &Vec<Profile>,
) -> (r: Result<Vec<SignatureSettings>, Error>)
    ensures
        match search(device_id@, identities@, profiles@) {
            Ok(found) => r is Ok && all_settings_of(r->Ok_0@, found),
            Err(e) => r is Err && r->Err_0.is(e.0, e.1),
        },
{
    let mut settings: Vec<SignatureSettings> = Vec::new();
    let mut i: usize = 0;
    while i < profiles.len()
        invariant
            i <= profiles.len(),
            search(device_id@, identities@, profiles@.take(i as int)) is Ok,
            all_settings_of(
                settings@,
                search(device_id@, identities@, profiles@.take(i as int))->Ok_0,
            ),
        decreases profiles.len() - i,
    {
        proof {
            assert(profiles@.take(i + 1).drop_last() == profiles@.take(i as int));
            assert(profiles@.take(i + 1).last() == profiles@[i as int]);
        }
        match profile_settings(device_id, identities, &profiles[i]) {
            Ok(Some(s)) => {
                settings.push(s);
            },
            Ok(None) => {},
            Err(e) => {
                proof {
                    lemma_search_fails(device_id@, identities@, profiles@, i + 1);
                }
                return Err(e);
            },
        }
        i += 1;
    }
    assert(profiles@.take(profiles.len() as int) == profiles@);
    Ok(settings)
}

} // verus!
