//! Merge analysis results, file-merge enumerations and the interpretation of
//! merge calls' outputs.
use vstd::prelude::*;

use crate::oid::Oid;
use crate::status::{GIT_EINVALID, GIT_ERROR};
use vstd::std_specs::convert::TryFromSpec;
use vstd::std_specs::ops::{BitAndSpec, BitOrSpec, NotSpec};

verus! {

/// `GIT_MERGE_ANALYSIS_NONE`.
pub const GIT_MERGE_ANALYSIS_NONE: u32 = 0;
/// `GIT_MERGE_ANALYSIS_NORMAL`.
pub const GIT_MERGE_ANALYSIS_NORMAL: u32 = 1;
/// `GIT_MERGE_ANALYSIS_UP_TO_DATE`.
pub const GIT_MERGE_ANALYSIS_UP_TO_DATE: u32 = 2;
/// `GIT_MERGE_ANALYSIS_FASTFORWARD`.
pub const GIT_MERGE_ANALYSIS_FASTFORWARD: u32 = 4;
/// `GIT_MERGE_ANALYSIS_UNBORN`.
pub const GIT_MERGE_ANALYSIS_UNBORN: u32 = 8;
/// Every merge-analysis bit published by libgit2.
pub const GIT_MERGE_ANALYSIS_ALL: u32 = 15;

/// A set of merge opportunities reported by libgit2, holding only the
/// published bits.
#[derive(Clone, Copy, Debug, PartialEq, Eq, Hash, PartialOrd, Ord, Structural)]
pub struct GitMergeAnalysis(u32);

impl View for GitMergeAnalysis {
    type V = u32;

    closed spec fn view(&self) -> u32 {
        self.0
    }
}

/// Whether `bits` holds only published merge-analysis bits.
pub open spec fn spec_published_analysis(bits: u32) -> bool {
    bits & !GIT_MERGE_ANALYSIS_ALL == 0
}

impl GitMergeAnalysis {
    /// No merge is possible (`NONE`).
    pub fn none() -> (r: GitMergeAnalysis)
        ensures
            r@ == GIT_MERGE_ANALYSIS_NONE,
            r.wf(),
    {
        assert(GIT_MERGE_ANALYSIS_NONE & !GIT_MERGE_ANALYSIS_ALL == 0) by (bit_vector);
        GitMergeAnalysis(GIT_MERGE_ANALYSIS_NONE)
    }

    /// The inputs and `HEAD` have diverged and require a normal merge
    /// (`NORMAL`).
    pub fn normal() -> (r: GitMergeAnalysis)
        ensures
            r@ == GIT_MERGE_ANALYSIS_NORMAL,
            r.wf(),
    {
        assert(GIT_MERGE_ANALYSIS_NORMAL & !GIT_MERGE_ANALYSIS_ALL == 0) by (bit_vector);
        GitMergeAnalysis(GIT_MERGE_ANALYSIS_NORMAL)
    }

    /// Every input is already reachable from `HEAD` (`UP_TO_DATE`).
    pub fn up_to_date() -> (r: GitMergeAnalysis)
        ensures
            r@ == GIT_MERGE_ANALYSIS_UP_TO_DATE,
            r.wf(),
    {
        assert(GIT_MERGE_ANALYSIS_UP_TO_DATE & !GIT_MERGE_ANALYSIS_ALL == 0) by (bit_vector);
        GitMergeAnalysis(GIT_MERGE_ANALYSIS_UP_TO_DATE)
    }

    /// The input can be checked out as a fast-forward (`FASTFORWARD`).
    pub fn fastforward() -> (r: GitMergeAnalysis)
        ensures
            r@ == GIT_MERGE_ANALYSIS_FASTFORWARD,
            r.wf(),
    {
        assert(GIT_MERGE_ANALYSIS_FASTFORWARD & !GIT_MERGE_ANALYSIS_ALL == 0) by (bit_vector);
        GitMergeAnalysis(GIT_MERGE_ANALYSIS_FASTFORWARD)
    }

    /// `HEAD` is unborn and can be set directly to the target (`UNBORN`).
    pub fn unborn() -> (r: GitMergeAnalysis)
        ensures
            r@ == GIT_MERGE_ANALYSIS_UNBORN,
            r.wf(),
    {
        assert(GIT_MERGE_ANALYSIS_UNBORN & !GIT_MERGE_ANALYSIS_ALL == 0) by (bit_vector);
        GitMergeAnalysis(GIT_MERGE_ANALYSIS_UNBORN)
    }

    /// Every merge-analysis bit published by this version of libgit2 (`ALL`).
    pub fn all() -> (r: GitMergeAnalysis)
        ensures
            r@ == GIT_MERGE_ANALYSIS_ALL,
            r.wf(),
    {
        assert(GIT_MERGE_ANALYSIS_ALL & !GIT_MERGE_ANALYSIS_ALL == 0) by (bit_vector);
        GitMergeAnalysis(GIT_MERGE_ANALYSIS_ALL)
    }

    /// Whether no unpublished bit is set.
    pub open spec fn wf(self) -> bool {
        spec_published_analysis(self@)
    }

    /// The type invariant: no unpublished bit is ever set.
    #[verifier::type_invariant]
    closed spec fn published(self) -> bool {
        self.0 & !GIT_MERGE_ANALYSIS_ALL == 0
    }

    /// Converts raw bits when they contain only published opportunities.
    pub fn from_bits(bits: u32) -> (r: Option<GitMergeAnalysis>)
        ensures
            spec_published_analysis(bits) ==> (r matches Some(a) && a@ == bits),
            !spec_published_analysis(bits) ==> r is None,
    {
        if bits & !GIT_MERGE_ANALYSIS_ALL == 0 {
            Some(GitMergeAnalysis(bits))
        } else {
            None
        }
    }

    /// Returns the underlying libgit2 flag bits.
    pub fn bits(self) -> (bits: u32)
        ensures
            bits == self@,
            spec_published_analysis(bits),
    {
        proof {
            use_type_invariant(&self);
        }
        self.0
    }

    /// Returns whether no merge opportunity is set.
    pub fn is_empty(self) -> (r: bool)
        ensures
            r == (self@ == 0),
    {
        self.0 == 0
    }

    /// Returns whether every opportunity in `other` is present.
    pub fn contains(self, other: GitMergeAnalysis) -> (r: bool)
        ensures
            r == (self@ & other@ == other@),
    {
        self.0 & other.0 == other.0
    }

    /// Returns whether any opportunity in `other` is present.
    pub fn intersects(self, other: GitMergeAnalysis) -> (r: bool)
        ensures
            r == (self@ & other@ != 0),
    {
        self.0 & other.0 != 0
    }
}

impl core::ops::BitOr for GitMergeAnalysis {
    type Output = GitMergeAnalysis;

    fn bitor(self, rhs: GitMergeAnalysis) -> (r: GitMergeAnalysis) {
        proof {
            use_type_invariant(&self);
            use_type_invariant(&rhs);
        }
        let (x, y) = (self.0, rhs.0);
        assert((x & !15u32 == 0 && y & !15u32 == 0) ==> (x | y) & !15u32 == 0) by (bit_vector);
        GitMergeAnalysis(x | y)
    }
}

impl vstd::std_specs::ops::BitOrSpecImpl for GitMergeAnalysis {
    open spec fn obeys_bitor_spec() -> bool {
        true
    }

    open spec fn bitor_req(self, rhs: GitMergeAnalysis) -> bool {
        true
    }

    closed spec fn bitor_spec(self, rhs: GitMergeAnalysis) -> GitMergeAnalysis {
        GitMergeAnalysis(self.0 | rhs.0)
    }
}

impl core::ops::BitOrAssign for GitMergeAnalysis {
    fn bitor_assign(&mut self, rhs: GitMergeAnalysis)
        ensures
            *final(self) == old(self).bitor_spec(rhs),
            final(self)@ == old(self)@ | rhs@,
    {
        *self = *self | rhs;
    }
}

impl core::ops::BitAnd for GitMergeAnalysis {
    type Output = GitMergeAnalysis;

    fn bitand(self, rhs: GitMergeAnalysis) -> (r: GitMergeAnalysis) {
        proof {
            use_type_invariant(&self);
        }
        let (x, y) = (self.0, rhs.0);
        assert(x & !15u32 == 0 ==> (x & y) & !15u32 == 0) by (bit_vector);
        GitMergeAnalysis(x & y)
    }
}

impl vstd::std_specs::ops::BitAndSpecImpl for GitMergeAnalysis {
    open spec fn obeys_bitand_spec() -> bool {
        true
    }

    open spec fn bitand_req(self, rhs: GitMergeAnalysis) -> bool {
        true
    }

    closed spec fn bitand_spec(self, rhs: GitMergeAnalysis) -> GitMergeAnalysis {
        GitMergeAnalysis(self.0 & rhs.0)
    }
}

impl core::ops::BitAndAssign for GitMergeAnalysis {
    fn bitand_assign(&mut self, rhs: GitMergeAnalysis)
        ensures
            *final(self) == old(self).bitand_spec(rhs),
            final(self)@ == old(self)@ & rhs@,
    {
        *self = *self & rhs;
    }
}

impl core::ops::Not for GitMergeAnalysis {
    type Output = GitMergeAnalysis;

    fn not(self) -> (r: GitMergeAnalysis) {
        proof {
            use_type_invariant(&self);
        }
        let x = self.0;
        assert(x & !15u32 == 0 ==> (x ^ 15u32) & !15u32 == 0) by (bit_vector);
        GitMergeAnalysis(x ^ GIT_MERGE_ANALYSIS_ALL)
    }
}

impl vstd::std_specs::ops::NotSpecImpl for GitMergeAnalysis {
    open spec fn obeys_not_spec() -> bool {
        true
    }

    open spec fn not_req(self) -> bool {
        true
    }

    closed spec fn not_spec(self) -> GitMergeAnalysis {
        GitMergeAnalysis(self.0 ^ GIT_MERGE_ANALYSIS_ALL)
    }
}

impl GitMergeAnalysis {
    /// The union of two sets of opportunities is their bitwise or.
    pub broadcast proof fn lemma_bitor_view(a: GitMergeAnalysis, b: GitMergeAnalysis)
        ensures
            #[trigger] a.bitor_spec(b)@ == a@ | b@,
    {
    }

    /// The intersection of two sets of opportunities is their bitwise and.
    pub broadcast proof fn lemma_bitand_view(a: GitMergeAnalysis, b: GitMergeAnalysis)
        ensures
            #[trigger] a.bitand_spec(b)@ == a@ & b@,
    {
    }

    /// Two analyses with the same bits are the same analysis.
    pub broadcast proof fn lemma_view_injective(a: GitMergeAnalysis, b: GitMergeAnalysis)
        ensures
            #[trigger] a@ == #[trigger] b@ ==> a == b,
    {
    }

    /// Union, intersection and complement of analyses holding only published
    /// bits again hold only published bits, so no value of this type ever
    /// carries an opportunity libgit2 does not publish.
    pub proof fn lemma_operations_stay_published(a: GitMergeAnalysis, b: GitMergeAnalysis)
        requires
            a.wf(),
            b.wf(),
        ensures
            a.bitor_spec(b).wf(),
            a.bitand_spec(b).wf(),
            a.not_spec().wf(),
    {
        let x = a.0;
        let y = b.0;
        assert((x & !15u32 == 0 && y & !15u32 == 0) ==> ((x | y) & !15u32 == 0 && (x & y)
            & !15u32 == 0 && (x ^ 15u32) & !15u32 == 0)) by (bit_vector);
    }

    /// A union contains both of its operands and an intersection is
    /// contained in both; an analysis and its complement share no
    /// opportunity and together make up every published one.
    pub proof fn lemma_flag_algebra(a: GitMergeAnalysis, b: GitMergeAnalysis)
        requires
            a.wf(),
            b.wf(),
        ensures
            a.bitor_spec(b)@ & a@ == a@,
            a.bitor_spec(b)@ & b@ == b@,
            a@ & a.bitand_spec(b)@ == a.bitand_spec(b)@,
            b@ & a.bitand_spec(b)@ == a.bitand_spec(b)@,
            a.not_spec()@ & a@ == 0,
            a.bitor_spec(a.not_spec())@ == GIT_MERGE_ANALYSIS_ALL,
            a.not_spec().not_spec() == a,
    {
        let x = a.0;
        let y = b.0;
        assert(x & !15u32 == 0 ==> ((x | y) & x == x && (x | y) & y == y && x & (x & y) == x & y
            && y & (x & y) == x & y && (x ^ 15u32) & x == 0 && (x | (x ^ 15u32)) == 15u32 && ((x
            ^ 15u32) ^ 15u32) == x)) by (bit_vector);
    }

    /// The complement flips exactly the published bits.
    pub broadcast proof fn lemma_not_view(a: GitMergeAnalysis)
        ensures
            #[trigger] a.not_spec()@ == a@ ^ GIT_MERGE_ANALYSIS_ALL,
    {
    }
}

impl From<GitMergeAnalysis> for u32 {
    fn from(analysis: GitMergeAnalysis) -> (bits: u32) {
        analysis.bits()
    }
}

impl vstd::std_specs::convert::FromSpecImpl<GitMergeAnalysis> for u32 {
    open spec fn obeys_from_spec() -> bool {
        true
    }

    open spec fn from_spec(v: GitMergeAnalysis) -> u32 {
        v@
    }
}

impl TryFrom<u32> for GitMergeAnalysis {
    type Error = u32;

    fn try_from(bits: u32) -> (r: Result<GitMergeAnalysis, u32>) {
        match GitMergeAnalysis::from_bits(bits) {
            Some(analysis) => Ok(analysis),
            None => Err(bits),
        }
    }
}

impl vstd::std_specs::convert::TryFromSpecImpl<u32> for GitMergeAnalysis {
    open spec fn obeys_try_from_spec() -> bool {
        true
    }

    closed spec fn try_from_spec(bits: u32) -> Result<GitMergeAnalysis, u32> {
        if spec_published_analysis(bits) {
            Ok(GitMergeAnalysis(bits))
        } else {
            Err(bits)
        }
    }
}

impl GitMergeAnalysis {
    /// Converting the bits of any analysis back gives the same analysis, and
    /// any bits with an unpublished opportunity are refused as themselves.
    pub proof fn lemma_bits_round_trip(a: GitMergeAnalysis, bits: u32)
        requires
            a.wf(),
        ensures
            <GitMergeAnalysis as TryFromSpec<u32>>::try_from_spec(a@) == Ok::<
                GitMergeAnalysis,
                u32,
            >(a),
            !spec_published_analysis(bits) ==> <GitMergeAnalysis as TryFromSpec<
                u32,
            >>::try_from_spec(bits) == Err::<GitMergeAnalysis, u32>(bits),
    {
    }
}

impl Default for GitMergeAnalysis {
    fn default() -> (r: GitMergeAnalysis)
        ensures
            r@ == GIT_MERGE_ANALYSIS_NONE,
            r.wf(),
    {
        assert(GIT_MERGE_ANALYSIS_NONE & !GIT_MERGE_ANALYSIS_ALL == 0) by (bit_vector);
        GitMergeAnalysis(GIT_MERGE_ANALYSIS_NONE)
    }
}

/// `GIT_MERGE_FILE_FAVOR_NORMAL`.
pub const GIT_MERGE_FILE_FAVOR_NORMAL: u32 = 0;
/// `GIT_MERGE_FILE_FAVOR_OURS`.
pub const GIT_MERGE_FILE_FAVOR_OURS: u32 = 1;
/// `GIT_MERGE_FILE_FAVOR_THEIRS`.
pub const GIT_MERGE_FILE_FAVOR_THEIRS: u32 = 2;
/// `GIT_MERGE_FILE_FAVOR_UNION`.
pub const GIT_MERGE_FILE_FAVOR_UNION: u32 = 3;

/// Selects which side wins conflicting regions during a file merge.
#[derive(Clone, Copy, Debug, PartialEq, Eq, Structural)]
#[non_exhaustive]
pub enum MergeFileFavor {
    /// Record conflicts normally.
    Normal,
    /// Keep the "ours" side of conflicting regions.
    Ours,
    /// Keep the "theirs" side of conflicting regions.
    Theirs,
    /// Combine the unique lines from both sides.
    Union,
}

/// The C value of each favor.
pub open spec fn spec_favor_raw(favor: MergeFileFavor) -> u32 {
    match favor {
        MergeFileFavor::Normal => GIT_MERGE_FILE_FAVOR_NORMAL,
        MergeFileFavor::Ours => GIT_MERGE_FILE_FAVOR_OURS,
        MergeFileFavor::Theirs => GIT_MERGE_FILE_FAVOR_THEIRS,
        MergeFileFavor::Union => GIT_MERGE_FILE_FAVOR_UNION,
    }
}

/// Decodes a C favor value: the four published values and nothing else.
pub open spec fn spec_favor_from_raw(raw: u32) -> Result<MergeFileFavor, u32> {
    if raw == GIT_MERGE_FILE_FAVOR_NORMAL {
        Ok(MergeFileFavor::Normal)
    } else if raw == GIT_MERGE_FILE_FAVOR_OURS {
        Ok(MergeFileFavor::Ours)
    } else if raw == GIT_MERGE_FILE_FAVOR_THEIRS {
        Ok(MergeFileFavor::Theirs)
    } else if raw == GIT_MERGE_FILE_FAVOR_UNION {
        Ok(MergeFileFavor::Union)
    } else {
        Err(raw)
    }
}

impl Default for MergeFileFavor {
    fn default() -> (r: MergeFileFavor)
        ensures
            r == MergeFileFavor::Normal,
    {
        MergeFileFavor::Normal
    }
}

impl From<MergeFileFavor> for u32 {
    fn from(value: MergeFileFavor) -> (raw: u32) {
        match value {
            MergeFileFavor::Normal => GIT_MERGE_FILE_FAVOR_NORMAL,
            MergeFileFavor::Ours => GIT_MERGE_FILE_FAVOR_OURS,
            MergeFileFavor::Theirs => GIT_MERGE_FILE_FAVOR_THEIRS,
            MergeFileFavor::Union => GIT_MERGE_FILE_FAVOR_UNION,
        }
    }
}

impl vstd::std_specs::convert::FromSpecImpl<MergeFileFavor> for u32 {
    open spec fn obeys_from_spec() -> bool {
        true
    }

    open spec fn from_spec(v: MergeFileFavor) -> u32 {
        spec_favor_raw(v)
    }
}

impl TryFrom<u32> for MergeFileFavor {
    type Error = u32;

    fn try_from(value: u32) -> (r: Result<MergeFileFavor, u32>) {
        if value == GIT_MERGE_FILE_FAVOR_NORMAL {
            Ok(MergeFileFavor::Normal)
        } else if value == GIT_MERGE_FILE_FAVOR_OURS {
            Ok(MergeFileFavor::Ours)
        } else if value == GIT_MERGE_FILE_FAVOR_THEIRS {
            Ok(MergeFileFavor::Theirs)
        } else if value == GIT_MERGE_FILE_FAVOR_UNION {
            Ok(MergeFileFavor::Union)
        } else {
            Err(value)
        }
    }
}

impl vstd::std_specs::convert::TryFromSpecImpl<u32> for MergeFileFavor {
    open spec fn obeys_try_from_spec() -> bool {
        true
    }

    open spec fn try_from_spec(v: u32) -> Result<MergeFileFavor, u32> {
        spec_favor_from_raw(v)
    }
}

/// Every favor survives the trip through its C value, and a C value past
/// the published ones is refused as itself.
pub proof fn lemma_favor_round_trip(favor: MergeFileFavor, raw: u32)
    ensures
        spec_favor_from_raw(spec_favor_raw(favor)) == Ok::<MergeFileFavor, u32>(favor),
        raw > GIT_MERGE_FILE_FAVOR_UNION ==> spec_favor_from_raw(raw) == Err::<
            MergeFileFavor,
            u32,
        >(raw),
{
}

/// `GIT_MERGE_FILE_DEFAULT`.
pub const GIT_MERGE_FILE_DEFAULT: u32 = 0;
/// `GIT_MERGE_FILE_STYLE_MERGE`.
pub const GIT_MERGE_FILE_STYLE_MERGE: u32 = 1;
/// `GIT_MERGE_FILE_STYLE_DIFF3`.
pub const GIT_MERGE_FILE_STYLE_DIFF3: u32 = 2;
/// `GIT_MERGE_FILE_SIMPLIFY_ALNUM`.
pub const GIT_MERGE_FILE_SIMPLIFY_ALNUM: u32 = 4;
/// `GIT_MERGE_FILE_IGNORE_WHITESPACE`.
pub const GIT_MERGE_FILE_IGNORE_WHITESPACE: u32 = 8;
/// `GIT_MERGE_FILE_IGNORE_WHITESPACE_CHANGE`.
pub const GIT_MERGE_FILE_IGNORE_WHITESPACE_CHANGE: u32 = 16;
/// `GIT_MERGE_FILE_IGNORE_WHITESPACE_EOL`.
pub const GIT_MERGE_FILE_IGNORE_WHITESPACE_EOL: u32 = 32;
/// `GIT_MERGE_FILE_DIFF_PATIENCE`.
pub const GIT_MERGE_FILE_DIFF_PATIENCE: u32 = 64;
/// `GIT_MERGE_FILE_DIFF_MINIMAL`.
pub const GIT_MERGE_FILE_DIFF_MINIMAL: u32 = 128;
/// `GIT_MERGE_FILE_STYLE_ZDIFF3`.
pub const GIT_MERGE_FILE_STYLE_ZDIFF3: u32 = 256;
/// `GIT_MERGE_FILE_ACCEPT_CONFLICTS`.
pub const GIT_MERGE_FILE_ACCEPT_CONFLICTS: u32 = 512;
/// Every file-merge flag published by libgit2.
pub const GIT_MERGE_FILE_ALL: u32 = 1023;

/// A set of file-merge behavior flags, holding only published bits.
#[derive(Clone, Copy, Debug, PartialEq, Eq, Hash, Structural)]
pub struct MergeFileFlags(u32);

impl View for MergeFileFlags {
    type V = u32;

    closed spec fn view(&self) -> u32 {
        self.0
    }
}

/// Whether `bits` holds only published file-merge flags.
pub open spec fn spec_published_file_flags(bits: u32) -> bool {
    bits & !GIT_MERGE_FILE_ALL == 0
}

impl MergeFileFlags {
    /// The type invariant: no unpublished bit is ever set.
    #[verifier::type_invariant]
    closed spec fn published(self) -> bool {
        self.0 & !GIT_MERGE_FILE_ALL == 0
    }

    /// Defaults: no flag set (`DEFAULT`).
    pub fn default_flags() -> (r: MergeFileFlags)
        ensures
            r@ == GIT_MERGE_FILE_DEFAULT,
    {
        assert(GIT_MERGE_FILE_DEFAULT & !GIT_MERGE_FILE_ALL == 0) by (bit_vector);
        MergeFileFlags(GIT_MERGE_FILE_DEFAULT)
    }

    /// Create standard conflicted merge files (`STYLE_MERGE`).
    pub fn style_merge() -> (r: MergeFileFlags)
        ensures
            r@ == GIT_MERGE_FILE_STYLE_MERGE,
    {
        assert(GIT_MERGE_FILE_STYLE_MERGE & !GIT_MERGE_FILE_ALL == 0) by (bit_vector);
        MergeFileFlags(GIT_MERGE_FILE_STYLE_MERGE)
    }

    /// Create diff3-style conflicted files (`STYLE_DIFF3`).
    pub fn style_diff3() -> (r: MergeFileFlags)
        ensures
            r@ == GIT_MERGE_FILE_STYLE_DIFF3,
    {
        assert(GIT_MERGE_FILE_STYLE_DIFF3 & !GIT_MERGE_FILE_ALL == 0) by (bit_vector);
        MergeFileFlags(GIT_MERGE_FILE_STYLE_DIFF3)
    }

    /// Condense non-alphanumeric regions for simplified diff files (`SIMPLIFY_ALNUM`).
    pub fn simplify_alnum() -> (r: MergeFileFlags)
        ensures
            r@ == GIT_MERGE_FILE_SIMPLIFY_ALNUM,
    {
        assert(GIT_MERGE_FILE_SIMPLIFY_ALNUM & !GIT_MERGE_FILE_ALL == 0) by (bit_vector);
        MergeFileFlags(GIT_MERGE_FILE_SIMPLIFY_ALNUM)
    }

    /// Ignore all whitespace (`IGNORE_WHITESPACE`).
    pub fn ignore_whitespace() -> (r: MergeFileFlags)
        ensures
            r@ == GIT_MERGE_FILE_IGNORE_WHITESPACE,
    {
        assert(GIT_MERGE_FILE_IGNORE_WHITESPACE & !GIT_MERGE_FILE_ALL == 0) by (bit_vector);
        MergeFileFlags(GIT_MERGE_FILE_IGNORE_WHITESPACE)
    }

    /// Ignore changes in amount of whitespace (`IGNORE_WHITESPACE_CHANGE`).
    pub fn ignore_whitespace_change() -> (r: MergeFileFlags)
        ensures
            r@ == GIT_MERGE_FILE_IGNORE_WHITESPACE_CHANGE,
    {
        assert(GIT_MERGE_FILE_IGNORE_WHITESPACE_CHANGE & !GIT_MERGE_FILE_ALL == 0) by (bit_vector);
        MergeFileFlags(GIT_MERGE_FILE_IGNORE_WHITESPACE_CHANGE)
    }

    /// Ignore whitespace at end of line (`IGNORE_WHITESPACE_EOL`).
    pub fn ignore_whitespace_eol() -> (r: MergeFileFlags)
        ensures
            r@ == GIT_MERGE_FILE_IGNORE_WHITESPACE_EOL,
    {
        assert(GIT_MERGE_FILE_IGNORE_WHITESPACE_EOL & !GIT_MERGE_FILE_ALL == 0) by (bit_vector);
        MergeFileFlags(GIT_MERGE_FILE_IGNORE_WHITESPACE_EOL)
    }

    /// Use the "patience diff" algorithm (`DIFF_PATIENCE`).
    pub fn diff_patience() -> (r: MergeFileFlags)
        ensures
            r@ == GIT_MERGE_FILE_DIFF_PATIENCE,
    {
        assert(GIT_MERGE_FILE_DIFF_PATIENCE & !GIT_MERGE_FILE_ALL == 0) by (bit_vector);
        MergeFileFlags(GIT_MERGE_FILE_DIFF_PATIENCE)
    }

    /// Take extra time to find minimal diff (`DIFF_MINIMAL`).
    pub fn diff_minimal() -> (r: MergeFileFlags)
        ensures
            r@ == GIT_MERGE_FILE_DIFF_MINIMAL,
    {
        assert(GIT_MERGE_FILE_DIFF_MINIMAL & !GIT_MERGE_FILE_ALL == 0) by (bit_vector);
        MergeFileFlags(GIT_MERGE_FILE_DIFF_MINIMAL)
    }

    /// Create zdiff3 ("zealous diff3")-style files (`STYLE_ZDIFF3`).
    pub fn style_zdiff3() -> (r: MergeFileFlags)
        ensures
            r@ == GIT_MERGE_FILE_STYLE_ZDIFF3,
    {
        assert(GIT_MERGE_FILE_STYLE_ZDIFF3 & !GIT_MERGE_FILE_ALL == 0) by (bit_vector);
        MergeFileFlags(GIT_MERGE_FILE_STYLE_ZDIFF3)
    }

    /// Do not produce file conflicts when common regions have changed (`ACCEPT_CONFLICTS`).
    pub fn accept_conflicts() -> (r: MergeFileFlags)
        ensures
            r@ == GIT_MERGE_FILE_ACCEPT_CONFLICTS,
    {
        assert(GIT_MERGE_FILE_ACCEPT_CONFLICTS & !GIT_MERGE_FILE_ALL == 0) by (bit_vector);
        MergeFileFlags(GIT_MERGE_FILE_ACCEPT_CONFLICTS)
    }

    /// Every published flag (`ALL`).
    pub fn all() -> (r: MergeFileFlags)
        ensures
            r@ == GIT_MERGE_FILE_ALL,
    {
        assert(GIT_MERGE_FILE_ALL & !GIT_MERGE_FILE_ALL == 0) by (bit_vector);
        MergeFileFlags(GIT_MERGE_FILE_ALL)
    }

    /// Converts raw bits when they contain only published flags.
    pub fn from_bits(bits: u32) -> (r: Option<MergeFileFlags>)
        ensures
            spec_published_file_flags(bits) ==> (r matches Some(f) && f@ == bits),
            !spec_published_file_flags(bits) ==> r is None,
    {
        if bits & !GIT_MERGE_FILE_ALL == 0 {
            Some(MergeFileFlags(bits))
        } else {
            None
        }
    }

    /// Returns the underlying C flag bits.
    pub fn bits(self) -> (bits: u32)
        ensures
            bits == self@,
            spec_published_file_flags(bits),
    {
        proof {
            use_type_invariant(&self);
        }
        self.0
    }

    /// Returns whether no flag is set.
    pub fn is_empty(self) -> (r: bool)
        ensures
            r == (self@ == 0),
    {
        self.0 == 0
    }

    /// Returns whether every flag in `other` is set.
    pub fn contains(self, other: MergeFileFlags) -> (r: bool)
        ensures
            r == (self@ & other@ == other@),
    {
        self.0 & other.0 == other.0
    }
}

impl core::ops::BitOr for MergeFileFlags {
    type Output = MergeFileFlags;

    fn bitor(self, rhs: MergeFileFlags) -> (r: MergeFileFlags) {
        proof {
            use_type_invariant(&self);
            use_type_invariant(&rhs);
        }
        let (x, y) = (self.0, rhs.0);
        assert((x & !1023u32 == 0 && y & !1023u32 == 0) ==> (x | y) & !1023u32 == 0)
            by (bit_vector);
        MergeFileFlags(x | y)
    }
}

impl vstd::std_specs::ops::BitOrSpecImpl for MergeFileFlags {
    open spec fn obeys_bitor_spec() -> bool {
        true
    }

    open spec fn bitor_req(self, rhs: MergeFileFlags) -> bool {
        true
    }

    closed spec fn bitor_spec(self, rhs: MergeFileFlags) -> MergeFileFlags {
        MergeFileFlags(self.0 | rhs.0)
    }
}

impl MergeFileFlags {
    /// The union of two flag sets is their bitwise or.
    pub broadcast proof fn lemma_bitor_view(a: MergeFileFlags, b: MergeFileFlags)
        ensures
            #[trigger] a.bitor_spec(b)@ == a@ | b@,
    {
    }
}

/// One side of an in-memory file merge (`git_merge_file_input`): the
/// contents and the optional file name are borrowed for `'a`, so they outlive
/// every use of the input.
#[derive(Clone, Copy, Debug)]
pub struct MergeFileInput<'a> {
    /// The ABI version of this input descriptor.
    pub version: u32,
    /// The counted contents; `None` is the empty representation.
    pub contents: Option<&'a [u8]>,
    /// The optional file name, without its terminator.
    pub path: Option<&'a [u8]>,
    /// The file mode, or zero when no mode should be merged.
    pub mode: u32,
}

impl<'a> MergeFileInput<'a> {
    /// The all-zero input: version zero, no contents, no path, no mode.
    pub fn zeroed() -> (input: MergeFileInput<'a>)
        ensures
            input.version == 0,
            input.contents is None,
            input.path is None,
            input.mode == 0,
    {
        MergeFileInput { version: 0, contents: None, path: None, mode: 0 }
    }

    /// Returns the number of bytes in the input contents.
    pub fn size(&self) -> (size: usize)
        ensures
            size == (match self.contents {
                Some(c) => c@.len(),
                None => 0,
            }),
    {
        match self.contents {
            Some(c) => c.len(),
            None => 0,
        }
    }

    /// Returns the optional file name borrowed by this input.
    pub fn path(&self) -> (path: Option<&'a [u8]>)
        ensures
            path == self.path,
    {
        self.path
    }

    /// Returns the file mode, or zero when no mode should be merged.
    pub fn mode(&self) -> (mode: u32)
        ensures
            mode == self.mode,
    {
        self.mode
    }

    /// Returns the ABI version of this input descriptor.
    pub fn version(&self) -> (version: u32)
        ensures
            version == self.version,
    {
        self.version
    }

    /// Returns the counted input contents; `None` is the empty
    /// representation, while a present empty run is an empty view.
    pub fn contents(&self) -> (contents: Option<&'a [u8]>)
        ensures
            contents == self.contents,
    {
        self.contents
    }

    /// Stores a borrowed content span, which sets the size with it.
    pub fn set_borrowed_contents(&mut self, contents: Option<&'a [u8]>)
        ensures
            final(self).contents == contents,
            final(self).path == old(self).path,
            final(self).mode == old(self).mode,
            final(self).version == old(self).version,
    {
        self.contents = contents;
    }

    /// Clears the borrowed content span.
    pub fn clear_contents(&mut self)
        ensures
            final(self).contents is None,
            final(self).path == old(self).path,
            final(self).mode == old(self).mode,
            final(self).version == old(self).version,
    {
        self.set_borrowed_contents(None);
    }

    /// Stores an optional borrowed file name.
    pub fn set_borrowed_path(&mut self, path: Option<&'a [u8]>)
        ensures
            final(self).path == path,
            final(self).contents == old(self).contents,
            final(self).mode == old(self).mode,
            final(self).version == old(self).version,
    {
        self.path = path;
    }

    /// Clears the optional borrowed file name.
    pub fn clear_path(&mut self)
        ensures
            final(self).path is None,
            final(self).contents == old(self).contents,
            final(self).mode == old(self).mode,
            final(self).version == old(self).version,
    {
        self.set_borrowed_path(None);
    }

    /// Sets the file mode, using zero to omit mode merging.
    pub fn set_mode(&mut self, mode: u32)
        ensures
            final(self).mode == mode,
            final(self).contents == old(self).contents,
            final(self).path == old(self).path,
            final(self).version == old(self).version,
    {
        self.mode = mode;
    }

    /// Sets the ABI version of this input descriptor.
    pub fn set_version(&mut self, version: u32)
        ensures
            final(self).version == version,
            final(self).contents == old(self).contents,
            final(self).path == old(self).path,
            final(self).mode == old(self).mode,
    {
        self.version = version;
    }
}

/// The bytes an optional owned buffer holds.
pub open spec fn spec_bytes(buffer: Option<Vec<u8>>) -> Option<Seq<u8>> {
    match buffer {
        Some(b) => Some(b@),
        None => None,
    }
}

/// The number of merged bytes an optional buffer holds: zero for none.
pub open spec fn spec_len(buffer: Option<Vec<u8>>) -> nat {
    match buffer {
        Some(b) => b@.len(),
        None => 0,
    }
}

/// The result of an in-memory file merge (`git_merge_file_result`), owning
/// its optional path and merged bytes.
#[derive(Debug)]
pub struct MergeFileResult {
    /// Nonzero when the output was merged without conflict markers.
    pub automergeable: u32,
    /// The selected result path, without its terminator; `None` for a path
    /// conflict.
    pub path: Option<Vec<u8>>,
    /// The file mode selected for the merged result.
    pub mode: u32,
    /// The merged bytes; `None` is the empty representation.
    pub contents: Option<Vec<u8>>,
}

impl MergeFileResult {
    /// Constructs an empty result.
    pub fn new() -> (result: MergeFileResult)
        ensures
            result.automergeable == 0,
            result.path is None,
            result.mode == 0,
            result.contents is None,
    {
        MergeFileResult { automergeable: 0, path: None, mode: 0, contents: None }
    }

    /// Reports whether the output was merged without conflict markers.
    pub fn is_automergeable(&self) -> (r: bool)
        ensures
            r == (self.automergeable != 0),
    {
        self.automergeable != 0
    }

    /// Borrows the selected result path, or returns `None` for a path
    /// conflict.
    pub fn path(&self) -> (path: Option<&[u8]>)
        ensures
            match path {
                Some(p) => spec_bytes(self.path) == Some(p@),
                None => self.path is None,
            },
    {
        match &self.path {
            Some(p) => Some(p.as_slice()),
            None => None,
        }
    }

    /// Returns the file mode selected for the merged result.
    pub fn mode(&self) -> (mode: u32)
        ensures
            mode == self.mode,
    {
        self.mode
    }

    /// Borrows the merged bytes; `None` is the empty representation.
    pub fn contents(&self) -> (contents: Option<&[u8]>)
        ensures
            match contents {
                Some(c) => spec_bytes(self.contents) == Some(c@),
                None => self.contents is None,
            },
    {
        match &self.contents {
            Some(c) => Some(c.as_slice()),
            None => None,
        }
    }

    /// Returns the number of merged bytes.
    pub fn len(&self) -> (len: usize)
        ensures
            len == spec_len(self.contents),
    {
        match &self.contents {
            Some(c) => c.len(),
            None => 0,
        }
    }

    /// Returns whether the merged byte span is empty.
    pub fn is_empty(&self) -> (r: bool)
        ensures
            r == (spec_len(self.contents) == 0),
    {
        self.len() == 0
    }

    /// Sets whether the result was merged without conflict markers.
    pub fn set_automergeable(&mut self, automergeable: bool)
        ensures
            final(self).automergeable == (if automergeable {
                1u32
            } else {
                0u32
            }),
            final(self).path == old(self).path,
            final(self).mode == old(self).mode,
            final(self).contents == old(self).contents,
    {
        self.automergeable = if automergeable {
            1
        } else {
            0
        };
    }

    /// Sets the file mode selected for the merged result.
    pub fn set_mode(&mut self, mode: u32)
        ensures
            final(self).mode == mode,
            final(self).automergeable == old(self).automergeable,
            final(self).path == old(self).path,
            final(self).contents == old(self).contents,
    {
        self.mode = mode;
    }

    /// Moves the owned path out, leaving the result's path empty.
    pub fn take_path(&mut self) -> (path: Option<Vec<u8>>)
        ensures
            path == old(self).path,
            final(self).path is None,
            final(self).automergeable == old(self).automergeable,
            final(self).mode == old(self).mode,
            final(self).contents == old(self).contents,
    {
        self.path.take()
    }

    /// Replaces the owned path, disposing of the previous one.
    pub fn set_path(&mut self, path: Option<Vec<u8>>)
        ensures
            final(self).path == path,
            final(self).automergeable == old(self).automergeable,
            final(self).mode == old(self).mode,
            final(self).contents == old(self).contents,
    {
        self.path = path;
    }

    /// Moves the owned merged bytes out, leaving an empty span.
    pub fn take_contents(&mut self) -> (contents: Option<Vec<u8>>)
        ensures
            contents == old(self).contents,
            final(self).contents is None,
            final(self).automergeable == old(self).automergeable,
            final(self).path == old(self).path,
            final(self).mode == old(self).mode,
    {
        self.contents.take()
    }

    /// Replaces the owned merged bytes, disposing of the previous ones.
    pub fn set_contents(&mut self, contents: Option<Vec<u8>>)
        ensures
            final(self).contents == contents,
            final(self).automergeable == old(self).automergeable,
            final(self).path == old(self).path,
            final(self).mode == old(self).mode,
    {
        self.contents = contents;
    }
}

/// Options that control a file-level merge (`git_merge_file_options`). The
/// labels are borrowed for `'a`; `favor` and `flags` hold the raw C values,
/// which are validated when read.
#[derive(Clone, Copy, Debug)]
pub struct MergeFileOptions<'a> {
    /// The ABI version of this options value.
    pub version: u32,
    /// The optional label for the common ancestor, without its terminator.
    pub ancestor_label: Option<&'a [u8]>,
    /// The optional label for the "ours" side.
    pub our_label: Option<&'a [u8]>,
    /// The optional label for the "theirs" side.
    pub their_label: Option<&'a [u8]>,
    /// The raw conflict-side preference.
    pub favor: u32,
    /// The raw file-merge behavior flags.
    pub flags: u32,
    /// The conflict-marker width, or zero for libgit2's default.
    pub marker_size: u16,
}

impl<'a> MergeFileOptions<'a> {
    /// The all-zero options value.
    pub fn zeroed() -> (options: MergeFileOptions<'a>)
        ensures
            options.version == 0,
            options.ancestor_label is None,
            options.our_label is None,
            options.their_label is None,
            options.favor == 0,
            options.flags == 0,
            options.marker_size == 0,
    {
        MergeFileOptions {
            version: 0,
            ancestor_label: None,
            our_label: None,
            their_label: None,
            favor: 0,
            flags: 0,
            marker_size: 0,
        }
    }

    /// Returns the validated file-merge behavior flags, or the raw bits when
    /// they hold an unpublished flag.
    pub fn flags(&self) -> (r: Result<MergeFileFlags, u32>)
        ensures
            spec_published_file_flags(self.flags) ==> (r matches Ok(f) && f@ == self.flags),
            !spec_published_file_flags(self.flags) ==> r == Err::<MergeFileFlags, u32>(self.flags),
    {
        match MergeFileFlags::from_bits(self.flags) {
            Some(flags) => Ok(flags),
            None => Err(self.flags),
        }
    }

    /// Returns the ABI version of this options value.
    pub fn version(&self) -> (version: u32)
        ensures
            version == self.version,
    {
        self.version
    }

    /// Returns the validated conflict-side preference, or the raw value.
    pub fn favor(&self) -> (r: Result<MergeFileFavor, u32>)
        ensures
            r == spec_favor_from_raw(self.favor),
    {
        MergeFileFavor::try_from(self.favor)
    }

    /// Returns the requested conflict-marker width, or zero for the default.
    pub fn marker_size(&self) -> (size: u16)
        ensures
            size == self.marker_size,
    {
        self.marker_size
    }

    /// Returns the optional label for the "theirs" side.
    pub fn their_label(&self) -> (label: Option<&'a [u8]>)
        ensures
            label == self.their_label,
    {
        self.their_label
    }

    /// Returns the optional label for the "ours" side.
    pub fn our_label(&self) -> (label: Option<&'a [u8]>)
        ensures
            label == self.our_label,
    {
        self.our_label
    }

    /// Returns the optional label for the common ancestor.
    pub fn ancestor_label(&self) -> (label: Option<&'a [u8]>)
        ensures
            label == self.ancestor_label,
    {
        self.ancestor_label
    }

    /// Sets the file-merge behavior flags.
    pub fn set_flags(&mut self, flags: MergeFileFlags)
        ensures
            final(self).flags == flags@,
            final(self).favor == old(self).favor,
            final(self).version == old(self).version,
            final(self).marker_size == old(self).marker_size,
            final(self).ancestor_label == old(self).ancestor_label,
            final(self).our_label == old(self).our_label,
            final(self).their_label == old(self).their_label,
    {
        self.flags = flags.bits();
    }

    /// Sets the ABI version of this options value.
    pub fn set_version(&mut self, version: u32)
        ensures
            final(self).version == version,
            final(self).flags == old(self).flags,
            final(self).favor == old(self).favor,
            final(self).marker_size == old(self).marker_size,
            final(self).ancestor_label == old(self).ancestor_label,
            final(self).our_label == old(self).our_label,
            final(self).their_label == old(self).their_label,
    {
        self.version = version;
    }

    /// Sets which side wins conflicting regions.
    pub fn set_favor(&mut self, favor: MergeFileFavor)
        ensures
            final(self).favor == spec_favor_raw(favor),
            final(self).flags == old(self).flags,
            final(self).version == old(self).version,
            final(self).marker_size == old(self).marker_size,
            final(self).ancestor_label == old(self).ancestor_label,
            final(self).our_label == old(self).our_label,
            final(self).their_label == old(self).their_label,
    {
        self.favor = u32::from(favor);
    }

    /// Sets the conflict-marker width, using zero for libgit2's default.
    pub fn set_marker_size(&mut self, marker_size: u16)
        ensures
            final(self).marker_size == marker_size,
            final(self).flags == old(self).flags,
            final(self).favor == old(self).favor,
            final(self).version == old(self).version,
            final(self).ancestor_label == old(self).ancestor_label,
            final(self).our_label == old(self).our_label,
            final(self).their_label == old(self).their_label,
    {
        self.marker_size = marker_size;
    }

    /// Stores an optional borrowed label for the "theirs" side.
    pub fn set_borrowed_their_label(&mut self, label: Option<&'a [u8]>)
        ensures
            final(self).their_label == label,
            final(self).ancestor_label == old(self).ancestor_label,
            final(self).our_label == old(self).our_label,
            final(self).flags == old(self).flags,
            final(self).favor == old(self).favor,
            final(self).version == old(self).version,
            final(self).marker_size == old(self).marker_size,
    {
        self.their_label = label;
    }

    /// Stores an optional borrowed label for the "ours" side.
    pub fn set_borrowed_our_label(&mut self, label: Option<&'a [u8]>)
        ensures
            final(self).our_label == label,
            final(self).ancestor_label == old(self).ancestor_label,
            final(self).their_label == old(self).their_label,
            final(self).flags == old(self).flags,
            final(self).favor == old(self).favor,
            final(self).version == old(self).version,
            final(self).marker_size == old(self).marker_size,
    {
        self.our_label = label;
    }

    /// Stores an optional borrowed label for the common ancestor.
    pub fn set_borrowed_ancestor_label(&mut self, label: Option<&'a [u8]>)
        ensures
            final(self).ancestor_label == label,
            final(self).our_label == old(self).our_label,
            final(self).their_label == old(self).their_label,
            final(self).flags == old(self).flags,
            final(self).favor == old(self).favor,
            final(self).version == old(self).version,
            final(self).marker_size == old(self).marker_size,
    {
        self.ancestor_label = label;
    }

    /// Clears the optional "theirs" label.
    pub fn clear_their_label(&mut self)
        ensures
            final(self).their_label is None,
            final(self).ancestor_label == old(self).ancestor_label,
            final(self).our_label == old(self).our_label,
            final(self).flags == old(self).flags,
            final(self).favor == old(self).favor,
            final(self).version == old(self).version,
            final(self).marker_size == old(self).marker_size,
    {
        self.set_borrowed_their_label(None);
    }

    /// Clears the optional "ours" label.
    pub fn clear_our_label(&mut self)
        ensures
            final(self).our_label is None,
            final(self).ancestor_label == old(self).ancestor_label,
            final(self).their_label == old(self).their_label,
            final(self).flags == old(self).flags,
            final(self).favor == old(self).favor,
            final(self).version == old(self).version,
            final(self).marker_size == old(self).marker_size,
    {
        self.set_borrowed_our_label(None);
    }

    /// Clears the optional common-ancestor label.
    pub fn clear_ancestor_label(&mut self)
        ensures
            final(self).ancestor_label is None,
            final(self).our_label == old(self).our_label,
            final(self).their_label == old(self).their_label,
            final(self).flags == old(self).flags,
            final(self).favor == old(self).favor,
            final(self).version == old(self).version,
            final(self).marker_size == old(self).marker_size,
    {
        self.set_borrowed_ancestor_label(None);
    }
}

/// `GIT_MERGE_PREFERENCE_NONE`.
pub const GIT_MERGE_PREFERENCE_NONE: u32 = 0;
/// `GIT_MERGE_PREFERENCE_NO_FASTFORWARD`.
pub const GIT_MERGE_PREFERENCE_NO_FASTFORWARD: u32 = 1;
/// `GIT_MERGE_PREFERENCE_FASTFORWARD_ONLY`.
pub const GIT_MERGE_PREFERENCE_FASTFORWARD_ONLY: u32 = 2;

/// The user's configured preference for fast-forward merges.
#[derive(Clone, Copy, Debug, PartialEq, Eq, Hash, Structural)]
#[non_exhaustive]
pub enum MergePreference {
    /// No merge preference was configured.
    NoPreference,
    /// Do not perform a fast-forward merge.
    NoFastForward,
    /// Only perform a fast-forward merge.
    FastForwardOnly,
}

/// The C value of each preference.
pub open spec fn spec_preference_raw(preference: MergePreference) -> u32 {
    match preference {
        MergePreference::NoPreference => GIT_MERGE_PREFERENCE_NONE,
        MergePreference::NoFastForward => GIT_MERGE_PREFERENCE_NO_FASTFORWARD,
        MergePreference::FastForwardOnly => GIT_MERGE_PREFERENCE_FASTFORWARD_ONLY,
    }
}

/// Decodes a C preference value: the three published values and nothing
/// else.
pub open spec fn spec_preference_from_raw(raw: u32) -> Result<MergePreference, u32> {
    if raw == GIT_MERGE_PREFERENCE_NONE {
        Ok(MergePreference::NoPreference)
    } else if raw == GIT_MERGE_PREFERENCE_NO_FASTFORWARD {
        Ok(MergePreference::NoFastForward)
    } else if raw == GIT_MERGE_PREFERENCE_FASTFORWARD_ONLY {
        Ok(MergePreference::FastForwardOnly)
    } else {
        Err(raw)
    }
}

impl Default for MergePreference {
    fn default() -> (r: MergePreference)
        ensures
            r == MergePreference::NoPreference,
    {
        MergePreference::NoPreference
    }
}

impl From<MergePreference> for u32 {
    fn from(preference: MergePreference) -> (raw: u32) {
        match preference {
            MergePreference::NoPreference => GIT_MERGE_PREFERENCE_NONE,
            MergePreference::NoFastForward => GIT_MERGE_PREFERENCE_NO_FASTFORWARD,
            MergePreference::FastForwardOnly => GIT_MERGE_PREFERENCE_FASTFORWARD_ONLY,
        }
    }
}

impl vstd::std_specs::convert::FromSpecImpl<MergePreference> for u32 {
    open spec fn obeys_from_spec() -> bool {
        true
    }

    open spec fn from_spec(v: MergePreference) -> u32 {
        spec_preference_raw(v)
    }
}

impl TryFrom<u32> for MergePreference {
    type Error = u32;

    fn try_from(preference: u32) -> (r: Result<MergePreference, u32>) {
        if preference == GIT_MERGE_PREFERENCE_NONE {
            Ok(MergePreference::NoPreference)
        } else if preference == GIT_MERGE_PREFERENCE_NO_FASTFORWARD {
            Ok(MergePreference::NoFastForward)
        } else if preference == GIT_MERGE_PREFERENCE_FASTFORWARD_ONLY {
            Ok(MergePreference::FastForwardOnly)
        } else {
            Err(preference)
        }
    }
}

impl vstd::std_specs::convert::TryFromSpecImpl<u32> for MergePreference {
    open spec fn obeys_try_from_spec() -> bool {
        true
    }

    open spec fn try_from_spec(v: u32) -> Result<MergePreference, u32> {
        spec_preference_from_raw(v)
    }
}

/// Every preference survives the trip through its C value, and a C value
/// past the published ones is refused as itself.
pub proof fn lemma_preference_round_trip(preference: MergePreference, raw: u32)
    ensures
        spec_preference_from_raw(spec_preference_raw(preference)) == Ok::<MergePreference, u32>(
            preference,
        ),
        raw > GIT_MERGE_PREFERENCE_FASTFORWARD_ONLY ==> spec_preference_from_raw(raw) == Err::<
            MergePreference,
            u32,
        >(raw),
{
}

/// Failure returned by the merge-analysis wrappers.
#[derive(Clone, Copy, Debug, PartialEq, Eq, Structural)]
pub enum MergeAnalysisError {
    /// Libgit2 returned an error status.
    Libgit2(i32),
    /// C returned analysis bits unknown to this build's headers.
    InvalidAnalysis(u32),
    /// C returned an unknown merge preference.
    InvalidPreference(u32),
}

/// What a merge analysis call reports: its status first, then the analysis
/// bits, then the preference, each validated in that order.
pub open spec fn spec_validate_analysis(status: i32, analysis: u32, preference: u32) -> Result<
    (u32, MergePreference),
    MergeAnalysisError,
> {
    if status != 0 {
        Err(MergeAnalysisError::Libgit2(status))
    } else if !spec_published_analysis(analysis) {
        Err(MergeAnalysisError::InvalidAnalysis(analysis))
    } else {
        match spec_preference_from_raw(preference) {
            Ok(p) => Ok((analysis, p)),
            Err(raw) => Err(MergeAnalysisError::InvalidPreference(raw)),
        }
    }
}

/// What a merge analysis reports: a nonzero status is the error; with a zero
/// status, analysis bits holding an unpublished opportunity are refused as
/// themselves; otherwise the analysis is the bits handed back and the
/// preference is the one the C value names (0: none, 1: no fast-forward, as
/// `merge.ff=false` configures; 2: fast-forward only), a larger value being
/// refused as itself. A reported preference always has the C value that was
/// handed back.
pub proof fn lemma_analysis_report(status: i32, analysis: u32, preference: u32)
    ensures
        status != 0 ==> spec_validate_analysis(status, analysis, preference) == Err::<
            (u32, MergePreference),
            MergeAnalysisError,
        >(MergeAnalysisError::Libgit2(status)),
        status == 0 && analysis & !15u32 != 0 ==> spec_validate_analysis(status, analysis, preference)
            == Err::<(u32, MergePreference), MergeAnalysisError>(
            MergeAnalysisError::InvalidAnalysis(analysis),
        ),
        status == 0 && analysis & !15u32 == 0 && preference == 0 ==> spec_validate_analysis(
            status,
            analysis,
            preference,
        ) == Ok::<(u32, MergePreference), MergeAnalysisError>(
            (analysis, MergePreference::NoPreference),
        ),
        status == 0 && analysis & !15u32 == 0 && preference == 1 ==> spec_validate_analysis(
            status,
            analysis,
            preference,
        ) == Ok::<(u32, MergePreference), MergeAnalysisError>(
            (analysis, MergePreference::NoFastForward),
        ),
        status == 0 && analysis & !15u32 == 0 && preference == 2 ==> spec_validate_analysis(
            status,
            analysis,
            preference,
        ) == Ok::<(u32, MergePreference), MergeAnalysisError>(
            (analysis, MergePreference::FastForwardOnly),
        ),
        status == 0 && analysis & !15u32 == 0 && preference > 2 ==> spec_validate_analysis(
            status,
            analysis,
            preference,
        ) == Err::<(u32, MergePreference), MergeAnalysisError>(
            MergeAnalysisError::InvalidPreference(preference),
        ),
        spec_validate_analysis(status, analysis, preference) matches Ok((bits, p)) ==> bits
            == analysis && spec_preference_raw(p) == preference,
{
}

/// Interprets the status and both output slots of `git_merge_analysis` and
/// `git_merge_analysis_for_ref`.
pub fn validate_analysis(status: i32, analysis: u32, preference: u32) -> (r: Result<
    (GitMergeAnalysis, MergePreference),
    MergeAnalysisError,
>)
    ensures
        match spec_validate_analysis(status, analysis, preference) {
            Ok((bits, p)) => r matches Ok((a, q)) && a@ == bits && q == p,
            Err(e) => r == Err::<(GitMergeAnalysis, MergePreference), MergeAnalysisError>(e),
        },
{
    if status != 0 {
        return Err(MergeAnalysisError::Libgit2(status));
    }
    let analysis = match GitMergeAnalysis::try_from(analysis) {
        Ok(a) => a,
        Err(bits) => return Err(MergeAnalysisError::InvalidAnalysis(bits)),
    };
    let preference = match MergePreference::try_from(preference) {
        Ok(p) => p,
        Err(raw) => return Err(MergeAnalysisError::InvalidPreference(raw)),
    };
    Ok((analysis, preference))
}

/// Interprets a merge-base call: its output ID on success, else the status.
pub fn oid_output(status: i32, output: Oid) -> (r: Result<Oid, i32>)
    ensures
        r == (if status == 0 {
            Ok::<Oid, i32>(output)
        } else {
            Err::<Oid, i32>(status)
        }),
{
    crate::status::output_result(status, output)
}

/// The arity check of the many-commit merge-base queries
/// (`git_merge_base_many`, `git_merge_bases_many`, `git_merge_base_octopus`),
/// made before C is called: at least two commits, else `GIT_ERROR` (-1).
pub fn check_merge_base_inputs(count: usize) -> (r: Result<(), i32>)
    ensures
        r == (if count >= 2 {
            Ok::<(), i32>(())
        } else {
            Err::<(), i32>(GIT_ERROR)
        }),
{
    if count < 2 {
        Err(GIT_ERROR)
    } else {
        Ok(())
    }
}

/// The commits a many-commit merge-base query hands to C: a contiguous copy
/// of every ID, in order, once the arity check has passed; `GIT_ERROR` for
/// fewer than two commits.
pub fn merge_base_inputs(commits: &[&Oid]) -> (r: Result<Vec<Oid>, i32>)
    ensures
        commits@.len() < 2 ==> r == Err::<Vec<Oid>, i32>(GIT_ERROR),
        commits@.len() >= 2 ==> (r matches Ok(ids) && ids@.len() == commits@.len() && forall|i: int|
            0 <= i < commits@.len() ==> ids@[i] == *commits@[i]),
{
    match check_merge_base_inputs(commits.len()) {
        Err(e) => return Err(e),
        Ok(()) => {},
    }
    let mut ids: Vec<Oid> = Vec::new();
    let mut i: usize = 0;
    while i < commits.len()
        invariant
            i <= commits@.len(),
            ids@.len() == i,
            forall|j: int| 0 <= j < i ==> ids@[j] == *commits@[j],
        decreases commits@.len() - i,
    {
        ids.push(*commits[i]);
        i = i + 1;
    }
    Ok(ids)
}

/// The check `git_merge` makes before C is called: at least one head to
/// merge, else `GIT_EINVALID`.
pub fn check_merge_heads(count: usize) -> (r: Result<(), i32>)
    ensures
        r == (if count == 0 {
            Err::<(), i32>(GIT_EINVALID)
        } else {
            Ok::<(), i32>(())
        }),
{
    if count == 0 {
        Err(GIT_EINVALID)
    } else {
        Ok(())
    }
}

} // verus!
