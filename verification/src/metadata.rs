//! The build metadata that expressions are evaluated against.
//!
//! The values are plain data: they are built once, outside this crate, and
//! only read here. Each record has a short text that stands for it as a
//! whole, such as `demo v1.2.3` for a crate.

use crate::text::{
    decimal,
    join,
    lemma_join_step,
    prefix,
    push_decimal,
    push_prefix,
    strings_view,
    text_option_view,
};
use vstd::arithmetic::div_mod::lemma_fundamental_div_mod_converse;
use vstd::prelude::*;

verus! {

/// The first second that a [`DateTimeUtc`] can hold: the start of the year
/// -262143.
pub const MIN_SECONDS: i64 = -8_334_601_228_800;

/// The last second that a [`DateTimeUtc`] can hold: the end of the year
/// 262142.
pub const MAX_SECONDS: i64 = 8_210_266_876_799;

/// The number of nanoseconds in a second.
pub const NANOS_PER_SECOND: u32 = 1_000_000_000;

/// Whether a count of seconds since 1970-01-01 00:00:00 UTC, with
/// nanoseconds into that second, names an instant that can be written as a
/// calendar date.
pub open spec fn representable(seconds: int, nanoseconds: int) -> bool {
    &&& MIN_SECONDS <= seconds <= MAX_SECONDS
    &&& 0 <= nanoseconds < NANOS_PER_SECOND
}

/// The text `%Y-%m-%d %H:%M:%S%.fZ` of an instant, as chrono formats it:
/// date and time of day in UTC, the fraction of the second only where it is
/// not zero, and a final `Z`.
pub uninterp spec fn utc_text(seconds: int, nanoseconds: int) -> Seq<char>;

/// Formats an instant with chrono's `DateTime::from_timestamp` and
/// `DateTime::format`. Every representable instant is in chrono's range, so
/// the conversion succeeds; the text is a function of the instant alone.
#[verifier::external_body]
fn format_utc(seconds: i64, nanoseconds: u32) -> (text: String)
    requires
        representable(seconds as int, nanoseconds as int),
    ensures
        text@ == utc_text(seconds as int, nanoseconds as int),
{
    chrono::DateTime::from_timestamp(seconds, nanoseconds).unwrap().format(
        "%Y-%m-%d %H:%M:%S%.fZ",
    ).to_string()
}

/// An instant in UTC, counted from 1970-01-01 00:00:00.
#[derive(Clone, Copy, Debug, PartialEq, Eq, PartialOrd, Ord, Hash)]
pub struct DateTimeUtc {
    seconds: i64,
    nanoseconds: u32,
}

/// What a [`DateTimeUtc`] stands for: whole seconds since 1970-01-01
/// 00:00:00 UTC, and nanoseconds into the second.
pub ghost struct Instant {
    pub seconds: int,
    pub nanoseconds: int,
}

impl Instant {
    /// The text that stands for the instant.
    pub open spec fn text(self) -> Seq<char> {
        utc_text(self.seconds, self.nanoseconds)
    }
}

impl View for DateTimeUtc {
    type V = Instant;

    closed spec fn view(&self) -> Instant {
        Instant { seconds: self.seconds as int, nanoseconds: self.nanoseconds as int }
    }
}

impl DateTimeUtc {
    #[verifier::type_invariant]
    closed spec fn well_formed(self) -> bool {
        representable(self.seconds as int, self.nanoseconds as int)
    }

    /// The instant `nanoseconds` after the start of second `seconds`, if it
    /// is representable.
    pub fn new(seconds: i64, nanoseconds: u32) -> (instant: Option<DateTimeUtc>)
        ensures
            instant is Some <==> representable(seconds as int, nanoseconds as int),
            instant matches Some(t) ==> t@ == (Instant {
                seconds: seconds as int,
                nanoseconds: nanoseconds as int,
            }),
    {
        if MIN_SECONDS <= seconds && seconds <= MAX_SECONDS && nanoseconds < NANOS_PER_SECOND {
            Some(DateTimeUtc { seconds, nanoseconds })
        } else {
            None
        }
    }

    /// Whole seconds since 1970-01-01 00:00:00 UTC.
    pub fn timestamp(&self) -> (seconds: i64)
        ensures
            seconds == self@.seconds,
    {
        self.seconds
    }

    /// Nanoseconds into the second.
    pub fn timestamp_subsec_nanos(&self) -> (nanoseconds: u32)
        ensures
            nanoseconds == self@.nanoseconds,
    {
        self.nanoseconds
    }

    /// Appends the text of the instant.
    pub fn push_to(&self, buffer: &mut String)
        ensures
            final(buffer)@ == old(buffer)@ + self@.text(),
    {
        proof {
            use_type_invariant(self);
        }
        let text = format_utc(self.seconds, self.nanoseconds);
        buffer.append(text.as_str());
    }
}

/// The instant `nanos` nanoseconds after 1970-01-01 00:00:00 UTC.
pub fn nanos_to_utc(nanos: i64) -> (instant: DateTimeUtc)
    ensures
        instant@.seconds == nanos as int / 1_000_000_000,
        instant@.nanoseconds == nanos as int % 1_000_000_000,
{
    let (seconds, nanoseconds): (i64, u32) = if nanos >= 0 {
        let n = nanos as u64;
        ((n / 1_000_000_000) as i64, (n % 1_000_000_000) as u32)
    } else {
        let below = (-(nanos + 1)) as u64;
        (-((below / 1_000_000_000) as i64) - 1, (999_999_999 - below % 1_000_000_000) as u32)
    };
    proof {
        lemma_fundamental_div_mod_converse(
            nanos as int,
            1_000_000_000,
            seconds as int,
            nanoseconds as int,
        );
    }
    DateTimeUtc { seconds, nanoseconds }
}

/// The instant `secs` seconds after 1970-01-01 00:00:00 UTC.
pub fn epoch_to_utc(secs: i64) -> (instant: DateTimeUtc)
    requires
        MIN_SECONDS <= secs <= MAX_SECONDS,
    ensures
        instant@.seconds == secs,
        instant@.nanoseconds == 0,
{
    DateTimeUtc { seconds: secs, nanoseconds: 0 }
}

/// One identifier of a version's pre-release or build part.
#[derive(Debug, PartialEq, Eq, PartialOrd, Ord, Hash)]
pub enum Identifier {
    Numeric(u64),
    AlphaNumeric(String),
}

/// What an [`Identifier`] stands for.
pub ghost enum IdentifierView {
    Numeric(nat),
    AlphaNumeric(Seq<char>),
}

impl View for Identifier {
    type V = IdentifierView;

    open spec fn view(&self) -> IdentifierView {
        match self {
            Identifier::Numeric(n) => IdentifierView::Numeric(*n as nat),
            Identifier::AlphaNumeric(s) => IdentifierView::AlphaNumeric(s@),
        }
    }
}

/// What each of the identifiers stands for.
pub open spec fn identifiers_view(identifiers: Seq<Identifier>) -> Seq<IdentifierView> {
    Seq::new(identifiers.len(), |i: int| identifiers[i]@)
}

impl IdentifierView {
    /// A number as its decimal numeral, a name as it stands.
    pub open spec fn text(self) -> Seq<char> {
        match self {
            IdentifierView::Numeric(n) => decimal(n),
            IdentifierView::AlphaNumeric(s) => s,
        }
    }
}

impl Clone for Identifier {
    fn clone(&self) -> (copy: Self)
        ensures
            copy@ == self@,
    {
        match self {
            Identifier::Numeric(n) => Identifier::Numeric(*n),
            Identifier::AlphaNumeric(s) => Identifier::AlphaNumeric(s.clone()),
        }
    }
}

/// A copy of the identifiers.
fn copy_identifiers(identifiers: &Vec<Identifier>) -> (copy: Vec<Identifier>)
    ensures
        identifiers_view(copy@) == identifiers_view(identifiers@),
{
    let mut copy: Vec<Identifier> = Vec::new();
    let mut i: usize = 0;
    while i < identifiers.len()
        invariant
            i <= identifiers.len(),
            copy.len() == i,
            forall|j: int| 0 <= j < i ==> (#[trigger] copy@[j])@ == identifiers@[j]@,
        decreases identifiers.len() - i,
    {
        copy.push(identifiers[i].clone());
        i += 1;
    }
    copy
}

/// A copy of the strings.
fn copy_strings(strings: &Vec<String>) -> (copy: Vec<String>)
    ensures
        strings_view(copy@) == strings_view(strings@),
{
    let mut copy: Vec<String> = Vec::new();
    let mut i: usize = 0;
    while i < strings.len()
        invariant
            i <= strings.len(),
            copy.len() == i,
            forall|j: int| 0 <= j < i ==> (#[trigger] copy@[j])@ == strings@[j]@,
        decreases strings.len() - i,
    {
        copy.push(strings[i].clone());
        i += 1;
    }
    copy
}

/// A copy of a string that may be absent.
fn copy_text_option(text: &Option<String>) -> (copy: Option<String>)
    ensures
        text_option_view(copy) == text_option_view(*text),
{
    match text {
        Some(t) => Some(t.clone()),
        None => None,
    }
}

impl Identifier {
    /// Appends the text of the identifier.
    pub fn push_to(&self, buffer: &mut String)
        ensures
            final(buffer)@ == old(buffer)@ + self@.text(),
    {
        match self {
            Identifier::Numeric(n) => push_decimal(buffer, *n),
            Identifier::AlphaNumeric(s) => buffer.append(s.as_str()),
        }
    }
}

/// The identifiers written one after another, with dots between them.
pub open spec fn identifiers_text(identifiers: Seq<IdentifierView>) -> Seq<char> {
    join(identifiers.map_values(|i: IdentifierView| i.text()), seq!['.'])
}

fn push_identifiers(buffer: &mut String, identifiers: &Vec<Identifier>)
    ensures
        final(buffer)@ == old(buffer)@ + identifiers_text(identifiers_view(identifiers@)),
{
    let ghost parts = identifiers_view(identifiers@).map_values(|i: IdentifierView| i.text());
    let mut i: usize = 0;
    while i < identifiers.len()
        invariant
            i <= identifiers.len(),
            parts == identifiers_view(identifiers@).map_values(|i: IdentifierView| i.text()),
            buffer@ == old(buffer)@ + join(parts.take(i as int), seq!['.']),
        decreases identifiers.len() - i,
    {
        proof {
            lemma_join_step(parts, seq!['.'], i as int);
        }
        if i > 0 {
            buffer.push('.');
        }
        identifiers[i].push_to(buffer);
        i += 1;
    }
    proof {
        assert(parts.take(i as int) =~= parts);
    }
}

/// A version: three numbers, then the pre-release and build identifiers in
/// the order in which they were given.
#[derive(Debug, PartialEq, Eq, PartialOrd, Ord, Hash)]
pub struct Version {
    pub major: u64,
    pub minor: u64,
    pub patch: u64,
    pub pre: Vec<Identifier>,
    pub build: Vec<Identifier>,
}

/// What a [`Version`] stands for.
pub ghost struct VersionView {
    pub major: nat,
    pub minor: nat,
    pub patch: nat,
    pub pre: Seq<IdentifierView>,
    pub build: Seq<IdentifierView>,
}

impl View for Version {
    type V = VersionView;

    open spec fn view(&self) -> VersionView {
        VersionView {
            major: self.major as nat,
            minor: self.minor as nat,
            patch: self.patch as nat,
            pre: identifiers_view(self.pre@),
            build: identifiers_view(self.build@),
        }
    }
}

impl VersionView {
    /// `major.minor.patch`, then `-` and the pre-release identifiers where
    /// there are any, then `+` and the build identifiers where there are any.
    pub open spec fn text(self) -> Seq<char> {
        decimal(self.major) + seq!['.'] + decimal(self.minor) + seq!['.'] + decimal(self.patch) + (
        if self.pre.len() > 0 {
            seq!['-'] + identifiers_text(self.pre)
        } else {
            Seq::empty()
        }) + (if self.build.len() > 0 {
            seq!['+'] + identifiers_text(self.build)
        } else {
            Seq::empty()
        })
    }
}

impl Clone for Version {
    fn clone(&self) -> (copy: Self)
        ensures
            copy@ == self@,
    {
        Version {
            major: self.major,
            minor: self.minor,
            patch: self.patch,
            pre: copy_identifiers(&self.pre),
            build: copy_identifiers(&self.build),
        }
    }
}

impl Version {
    /// Appends the text of the version.
    pub fn push_to(&self, buffer: &mut String)
        ensures
            final(buffer)@ == old(buffer)@ + self@.text(),
    {
        push_decimal(buffer, self.major);
        buffer.push('.');
        push_decimal(buffer, self.minor);
        buffer.push('.');
        push_decimal(buffer, self.patch);
        if self.pre.len() > 0 {
            buffer.push('-');
            push_identifiers(buffer, &self.pre);
        }
        if self.build.len() > 0 {
            buffer.push('+');
            push_identifiers(buffer, &self.build);
        }
    }
}

/// The version of this crate.
pub fn crate_version() -> (version: Version)
    ensures
        version@ == (VersionView {
            major: 0,
            minor: 1,
            patch: 0,
            pre: Seq::empty(),
            build: Seq::empty(),
        }),
{
    proof {
        assert(identifiers_view(Seq::<Identifier>::empty()) =~= Seq::<IdentifierView>::empty());
    }
    Version { major: 0, minor: 1, patch: 0, pre: Vec::new(), build: Vec::new() }
}

/// A crate: the one that was built, or one of its dependencies.
#[derive(Debug, PartialEq, Eq, PartialOrd, Ord, Hash)]
pub struct CrateInfo {
    pub name: String,
    pub version: Version,
    pub authors: Vec<String>,
    pub license: Option<String>,
    /// The crates that this one depends on, in the order in which the
    /// resolver reported them.
    pub dependencies: Vec<CrateInfo>,
}

/// What a [`CrateInfo`] stands for.
pub ghost struct CrateInfoView {
    pub name: Seq<char>,
    pub version: VersionView,
    pub authors: Seq<Seq<char>>,
    pub license: Option<Seq<char>>,
    pub dependencies: Seq<CrateInfoView>,
}

/// What a crate stands for.
pub open spec fn crate_view(c: CrateInfo) -> CrateInfoView
    decreases c,
{
    CrateInfoView {
        name: c.name@,
        version: c.version@,
        authors: strings_view(c.authors@),
        license: text_option_view(c.license),
        dependencies: Seq::new(
            c.dependencies.len() as nat,
            |i: int|
                if 0 <= i < c.dependencies.len() {
                    crate_view(c.dependencies[i])
                } else {
                    arbitrary()
                },
        ),
    }
}

impl View for CrateInfo {
    type V = CrateInfoView;

    open spec fn view(&self) -> CrateInfoView {
        crate_view(*self)
    }
}

/// What each of the crates stands for.
pub open spec fn crates_view(crates: Seq<CrateInfo>) -> Seq<CrateInfoView> {
    Seq::new(crates.len(), |i: int| crates[i]@)
}

/// The dependencies of what a crate stands for are what its dependencies
/// stand for.
pub proof fn lemma_crate_view(c: CrateInfo)
    ensures
        c@.dependencies == crates_view(c.dependencies@),
{
}

impl Clone for CrateInfo {
    fn clone(&self) -> (copy: Self)
        ensures
            copy@ == self@,
        decreases self,
    {
        let mut dependencies: Vec<CrateInfo> = Vec::new();
        let mut i: usize = 0;
        while i < self.dependencies.len()
            invariant
                i <= self.dependencies.len(),
                dependencies.len() == i,
                forall|j: int|
                    0 <= j < i ==> (#[trigger] dependencies@[j])@ == self.dependencies@[j]@,
            decreases self.dependencies.len() - i,
        {
            dependencies.push(self.dependencies[i].clone());
            i += 1;
        }
        let copy = CrateInfo {
            name: self.name.clone(),
            version: self.version.clone(),
            authors: copy_strings(&self.authors),
            license: copy_text_option(&self.license),
            dependencies,
        };
        proof {
            lemma_crate_view(copy);
            lemma_crate_view(*self);
            assert(crates_view(copy.dependencies@) =~= crates_view(self.dependencies@));
        }
        copy
    }
}

impl CrateInfoView {
    /// `<name> v<version>`.
    pub open spec fn text(self) -> Seq<char> {
        self.name + " v"@ + self.version.text()
    }
}

impl CrateInfo {
    /// Appends the text of the crate.
    pub fn push_to(&self, buffer: &mut String)
        ensures
            final(buffer)@ == old(buffer)@ + self@.text(),
    {
        buffer.append(self.name.as_str());
        buffer.append(" v");
        self.version.push_to(buffer);
    }
}

/// The release channel of a compiler.
#[derive(Clone, Copy, Debug, PartialEq, Eq, PartialOrd, Ord, Hash)]
pub enum CompilerChannel {
    Dev,
    Nightly,
    Beta,
    Stable,
}

impl CompilerChannel {
    /// The name of the channel.
    pub open spec fn text(self) -> Seq<char> {
        match self {
            CompilerChannel::Dev => "Dev"@,
            CompilerChannel::Nightly => "Nightly"@,
            CompilerChannel::Beta => "Beta"@,
            CompilerChannel::Stable => "Stable"@,
        }
    }

    /// Appends the name of the channel.
    pub fn push_to(&self, buffer: &mut String)
        ensures
            final(buffer)@ == old(buffer)@ + self.text(),
    {
        match self {
            CompilerChannel::Dev => buffer.append("Dev"),
            CompilerChannel::Nightly => buffer.append("Nightly"),
            CompilerChannel::Beta => buffer.append("Beta"),
            CompilerChannel::Stable => buffer.append("Stable"),
        }
    }
}

/// The compiler that built the crate.
#[derive(Debug, PartialEq, Eq, PartialOrd, Ord, Hash)]
pub struct CompilerInfo {
    pub version: Version,
    pub commit_id: Option<String>,
    pub commit_date: Option<String>,
    pub channel: CompilerChannel,
    pub host_triple: String,
    pub target_triple: String,
}

/// What a [`CompilerInfo`] stands for.
pub ghost struct CompilerInfoView {
    pub version: VersionView,
    pub commit_id: Option<Seq<char>>,
    pub commit_date: Option<Seq<char>>,
    pub channel: CompilerChannel,
    pub host_triple: Seq<char>,
    pub target_triple: Seq<char>,
}

impl View for CompilerInfo {
    type V = CompilerInfoView;

    open spec fn view(&self) -> CompilerInfoView {
        CompilerInfoView {
            version: self.version@,
            commit_id: text_option_view(self.commit_id),
            commit_date: text_option_view(self.commit_date),
            channel: self.channel,
            host_triple: self.host_triple@,
            target_triple: self.target_triple@,
        }
    }
}

impl CompilerInfoView {
    /// `rustc <version>`, followed, where the commit is known, by the first
    /// nine characters of its id and, where that is known too, its date:
    /// `rustc 1.2.3 (012345678 2020-01-02)`.
    pub open spec fn text(self) -> Seq<char> {
        "rustc "@ + self.version.text() + match self.commit_id {
            Some(id) => " ("@ + prefix(id, 9) + (match self.commit_date {
                Some(date) => seq![' '] + date,
                None => Seq::empty(),
            }) + seq![')'],
            None => Seq::empty(),
        }
    }
}

impl Clone for CompilerInfo {
    fn clone(&self) -> (copy: Self)
        ensures
            copy@ == self@,
    {
        CompilerInfo {
            version: self.version.clone(),
            commit_id: copy_text_option(&self.commit_id),
            commit_date: copy_text_option(&self.commit_date),
            channel: self.channel,
            host_triple: self.host_triple.clone(),
            target_triple: self.target_triple.clone(),
        }
    }
}

impl CompilerInfo {
    /// Appends the text of the compiler.
    pub fn push_to(&self, buffer: &mut String)
        ensures
            final(buffer)@ == old(buffer)@ + self@.text(),
    {
        buffer.append("rustc ");
        self.version.push_to(buffer);
        if let Some(id) = &self.commit_id {
            buffer.append(" (");
            push_prefix(buffer, id.as_str(), 9);
            if let Some(date) = &self.commit_date {
                buffer.push(' ');
                buffer.append(date.as_str());
            }
            buffer.push(')');
        }
    }
}

/// The state of a git working copy.
#[derive(Debug, PartialEq, Eq, PartialOrd, Ord, Hash)]
pub struct GitInfo {
    pub commit_id: String,
    pub commit_short_id: Option<String>,
    pub commit_date: String,
    pub dirty: bool,
    pub branch: Option<String>,
    pub tags: Vec<String>,
}

/// What a [`GitInfo`] stands for.
pub ghost struct GitInfoView {
    pub commit_id: Seq<char>,
    pub commit_short_id: Option<Seq<char>>,
    pub commit_date: Seq<char>,
    pub dirty: bool,
    pub branch: Option<Seq<char>>,
    pub tags: Seq<Seq<char>>,
}

impl View for GitInfo {
    type V = GitInfoView;

    open spec fn view(&self) -> GitInfoView {
        GitInfoView {
            commit_id: self.commit_id@,
            commit_short_id: text_option_view(self.commit_short_id),
            commit_date: self.commit_date@,
            dirty: self.dirty,
            branch: text_option_view(self.branch),
            tags: strings_view(self.tags@),
        }
    }
}

impl GitInfoView {
    /// The commit id, a `+` where the working copy was dirty, and the branch
    /// in parentheses where one was checked out: `abc1234+ (main)`.
    pub open spec fn text(self) -> Seq<char> {
        self.commit_id + (if self.dirty {
            seq!['+']
        } else {
            Seq::empty()
        }) + match self.branch {
            Some(branch) => " ("@ + branch + seq![')'],
            None => Seq::empty(),
        }
    }
}

impl Clone for GitInfo {
    fn clone(&self) -> (copy: Self)
        ensures
            copy@ == self@,
    {
        GitInfo {
            commit_id: self.commit_id.clone(),
            commit_short_id: copy_text_option(&self.commit_short_id),
            commit_date: self.commit_date.clone(),
            dirty: self.dirty,
            branch: copy_text_option(&self.branch),
            tags: copy_strings(&self.tags),
        }
    }
}

impl GitInfo {
    /// Appends the text of the working copy.
    pub fn push_to(&self, buffer: &mut String)
        ensures
            final(buffer)@ == old(buffer)@ + self@.text(),
    {
        buffer.append(self.commit_id.as_str());
        if self.dirty {
            buffer.push('+');
        }
        if let Some(branch) = &self.branch {
            buffer.append(" (");
            buffer.append(branch.as_str());
            buffer.push(')');
        }
    }
}

/// The version control system that the sources were checked out of.
#[derive(Debug, PartialEq, Eq, PartialOrd, Ord, Hash)]
pub enum VersionControl {
    Git(GitInfo),
}

/// What a [`VersionControl`] stands for.
pub ghost enum VersionControlView {
    Git(GitInfoView),
}

impl View for VersionControl {
    type V = VersionControlView;

    open spec fn view(&self) -> VersionControlView {
        match self {
            VersionControl::Git(git) => VersionControlView::Git(git@),
        }
    }
}

impl VersionControlView {
    /// The text of the working copy.
    pub open spec fn text(self) -> Seq<char> {
        match self {
            VersionControlView::Git(git) => git.text(),
        }
    }
}

impl Clone for VersionControl {
    fn clone(&self) -> (copy: Self)
        ensures
            copy@ == self@,
    {
        match self {
            VersionControl::Git(git) => VersionControl::Git(git.clone()),
        }
    }
}

impl VersionControl {
    /// Appends the text of the working copy.
    pub fn push_to(&self, buffer: &mut String)
        ensures
            final(buffer)@ == old(buffer)@ + self@.text(),
    {
        match self {
            VersionControl::Git(git) => git.push_to(buffer),
        }
    }
}

/// Everything that is known about one build.
#[derive(Debug, PartialEq, Eq, PartialOrd, Ord, Hash)]
pub struct BuildInfo {
    pub timestamp: DateTimeUtc,
    pub profile: String,
    pub crate_info: CrateInfo,
    pub compiler: CompilerInfo,
    pub version_control: Option<VersionControl>,
}

/// What a version control system that may be absent stands for.
pub open spec fn version_control_option_view(version_control: Option<VersionControl>) -> Option<
    VersionControlView,
> {
    match version_control {
        Some(v) => Some(v@),
        None => None,
    }
}

/// What a [`BuildInfo`] stands for.
pub ghost struct BuildInfoView {
    pub timestamp: Instant,
    pub profile: Seq<char>,
    pub crate_info: CrateInfoView,
    pub compiler: CompilerInfoView,
    pub version_control: Option<VersionControlView>,
}

impl View for BuildInfo {
    type V = BuildInfoView;

    open spec fn view(&self) -> BuildInfoView {
        BuildInfoView {
            timestamp: self.timestamp@,
            profile: self.profile@,
            crate_info: self.crate_info@,
            compiler: self.compiler@,
            version_control: version_control_option_view(self.version_control),
        }
    }
}

impl BuildInfoView {
    /// The text of the crate, followed by ` built from ` and the text of the
    /// working copy where the sources were under version control.
    pub open spec fn text(self) -> Seq<char> {
        self.crate_info.text() + match self.version_control {
            Some(version_control) => " built from "@ + version_control.text(),
            None => Seq::empty(),
        }
    }
}

impl Clone for BuildInfo {
    fn clone(&self) -> (copy: Self)
        ensures
            copy@ == self@,
    {
        BuildInfo {
            timestamp: self.timestamp,
            profile: self.profile.clone(),
            crate_info: self.crate_info.clone(),
            compiler: self.compiler.clone(),
            version_control: match &self.version_control {
                Some(version_control) => Some(version_control.clone()),
                None => None,
            },
        }
    }
}

impl BuildInfo {
    /// Appends the text of the metadata.
    pub fn push_to(&self, buffer: &mut String)
        ensures
            final(buffer)@ == old(buffer)@ + self@.text(),
    {
        self.crate_info.push_to(buffer);
        if let Some(version_control) = &self.version_control {
            buffer.append(" built from ");
            version_control.push_to(buffer);
        }
    }
}

} // verus!
