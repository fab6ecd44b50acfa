//! The scheduler: which test case is next, whether it runs or is skipped, in
//! which lane it runs, what is reported about it, and how the run ends.
//!
//! The runner runs nothing itself. It says what to do next; the caller does
//! it and tells the runner how it went.

use crate::config::FeaturesConfig;
use crate::features::FileSystemFeature;
use crate::flags::FileFlags;
use crate::lanes::Lane;
use crate::test::{TestCase, TestCaseView};
use vstd::prelude::*;
use vstd::string::*;

pub mod machine;

verus! {

/// What is required and not enabled: the items of `required` that `enabled`
/// does not hold, each once, in the order in which `required` first names
/// them.
pub open spec fn missing<T>(required: Seq<T>, enabled: Seq<T>) -> Seq<T>
    decreases required.len(),
{
    if required.len() == 0 {
        Seq::empty()
    } else {
        let earlier = missing(required.drop_last(), enabled);
        let item = required.last();
        if enabled.contains(item) || earlier.contains(item) {
            earlier
        } else {
            earlier.push(item)
        }
    }
}

/// `missing` is the difference of the two as sets, and names nothing twice.
pub proof fn lemma_missing_is_difference<T>(required: Seq<T>, enabled: Seq<T>)
    ensures
        forall|item: T| #[trigger]
            missing(required, enabled).contains(item) <==> required.contains(item)
                && !enabled.contains(item),
        missing(required, enabled).no_duplicates(),
        missing(required, enabled).len() == 0 <==> forall|i: int|
            0 <= i < required.len() ==> enabled.contains(#[trigger] required[i]),
    decreases required.len(),
{
    let all = missing(required, enabled);
    if required.len() == 0 {
    } else {
        let shorter = required.drop_last();
        let earlier = missing(shorter, enabled);
        let last = required.last();
        lemma_missing_is_difference(shorter, enabled);
        assert forall|item: T| #[trigger]
            all.contains(item) <==> required.contains(item) && !enabled.contains(item) by {
            if required.contains(item) {
                let i = choose|i: int| 0 <= i < required.len() && required[i] == item;
                if i < required.len() - 1 {
                    assert(shorter[i] == item);
                    assert(shorter.contains(item));
                }
            }
            if shorter.contains(item) {
                let i = choose|i: int| 0 <= i < shorter.len() && shorter[i] == item;
                assert(required[i] == item);
            }
            assert(required[required.len() - 1] == last);
            if earlier.contains(item) {
                let i = choose|i: int| 0 <= i < earlier.len() && earlier[i] == item;
                if all != earlier {
                    assert(all[i] == item);
                }
            }
            if all.contains(item) && all != earlier {
                let i = choose|i: int| 0 <= i < all.len() && all[i] == item;
                if i < earlier.len() {
                    assert(earlier[i] == item);
                }
            }
            if all != earlier {
                assert(all[all.len() - 1] == last);
            }
        }
        if all.len() == 0 {
            assert forall|i: int| 0 <= i < required.len() implies enabled.contains(
                #[trigger] required[i],
            ) by {
                assert(required.contains(required[i]));
                assert(!all.contains(required[i]));
            }
        } else {
            let item = all[0];
            assert(all.contains(item));
            let i = choose|i: int| 0 <= i < required.len() && required[i] == item;
            assert(!enabled.contains(required[i]));
        }
    }
}

/// The features that `required` names and `enabled` does not hold.
pub fn missing_features(required: &Vec<FileSystemFeature>, enabled: &Vec<FileSystemFeature>) -> (out:
    Vec<FileSystemFeature>)
    ensures
        out@ == missing(required@, enabled@),
        forall|feature: FileSystemFeature| #[trigger]
            out@.contains(feature) <==> required@.contains(feature) && !enabled@.contains(feature),
        out@.no_duplicates(),
{
    let mut out: Vec<FileSystemFeature> = Vec::new();
    let mut i: usize = 0;
    while i < required.len()
        invariant
            i <= required.len(),
            out@ == missing(required@.take(i as int), enabled@),
        decreases required.len() - i,
    {
        let feature: FileSystemFeature = required[i];
        assert(required@.take(i + 1).drop_last() =~= required@.take(i as int));
        if !has_feature(enabled, feature) && !has_feature(&out, feature) {
            out.push(feature);
        }
        i += 1;
    }
    proof {
        assert(required@.take(i as int) =~= required@);
        lemma_missing_is_difference(required@, enabled@);
    }
    out
}

/// The file flags that `required` names and `enabled` does not hold.
pub fn missing_flags(required: &Vec<FileFlags>, enabled: &Vec<FileFlags>) -> (out: Vec<FileFlags>)
    ensures
        out@ == missing(required@, enabled@),
        forall|flag: FileFlags| #[trigger]
            out@.contains(flag) <==> required@.contains(flag) && !enabled@.contains(flag),
        out@.no_duplicates(),
{
    let mut out: Vec<FileFlags> = Vec::new();
    let mut i: usize = 0;
    while i < required.len()
        invariant
            i <= required.len(),
            out@ == missing(required@.take(i as int), enabled@),
        decreases required.len() - i,
    {
        let flag: FileFlags = required[i];
        assert(required@.take(i + 1).drop_last() =~= required@.take(i as int));
        if !has_flag(enabled, flag) && !has_flag(&out, flag) {
            out.push(flag);
        }
        i += 1;
    }
    proof {
        assert(required@.take(i as int) =~= required@);
        lemma_missing_is_difference(required@, enabled@);
    }
    out
}

/// Whether `list` holds `feature`.
fn has_feature(list: &Vec<FileSystemFeature>, feature: FileSystemFeature) -> (found: bool)
    ensures
        found == list@.contains(feature),
{
    let mut i: usize = 0;
    while i < list.len()
        invariant
            i <= list.len(),
            forall|j: int| 0 <= j < i ==> list@[j] != feature,
        decreases list.len() - i,
    {
        if list[i] == feature {
            return true;
        }
        i += 1;
    }
    false
}

/// Whether `list` holds `flag`.
fn has_flag(list: &Vec<FileFlags>, flag: FileFlags) -> (found: bool)
    ensures
        found == list@.contains(flag),
{
    let mut i: usize = 0;
    while i < list.len()
        invariant
            i <= list.len(),
            forall|j: int| 0 <= j < i ==> list@[j] != flag,
        decreases list.len() - i,
    {
        if list[i] == flag {
            return true;
        }
        i += 1;
    }
    false
}

/// One line for each feature of `features`, naming the table to add to the
/// configuration.
pub open spec fn feature_lines(features: Seq<FileSystemFeature>) -> Seq<char>
    decreases features.len(),
{
    if features.len() == 0 {
        Seq::empty()
    } else {
        feature_lines(features.drop_last()) + "\t[features."@ + features.last().spec_name()
            + "]\n"@
    }
}

/// The names of `flags`, each in double quotes, with a comma and a space
/// between one and the next.
pub open spec fn quoted_flags(flags: Seq<FileFlags>) -> Seq<char>
    decreases flags.len(),
{
    if flags.len() == 0 {
        Seq::empty()
    } else if flags.len() == 1 {
        "\""@ + flags[0].spec_name() + "\""@
    } else {
        quoted_flags(flags.drop_last()) + ", "@ + "\""@ + flags.last().spec_name() + "\""@
    }
}

/// What a skipped test case is lacking, as advice to whoever wrote the
/// configuration: the features to add, if any, then the file flags to add,
/// if any.
pub open spec fn skip_message(features: Seq<FileSystemFeature>, flags: Seq<FileFlags>) -> Seq<
    char,
> {
    let first = if features.len() > 0 {
        "please add the following features to your configuration:\n"@ + feature_lines(features)
    } else {
        Seq::empty()
    };
    let second = if flags.len() > 0 {
        "please add the following flags to your configuration:\n"@ + "\tfile_flags = ["@
            + quoted_flags(flags) + "]\n"@
    } else {
        Seq::empty()
    };
    first + second
}

/// What is printed for a skipped test case.
pub open spec fn skip_report(name: Seq<char>, message: Seq<char>) -> Seq<char> {
    "skipped '"@ + name + "'\n"@ + message
}

/// Writes the advice for a test case that lacks `features` and `flags`.
pub fn write_skip_message(features: &Vec<FileSystemFeature>, flags: &Vec<FileFlags>) -> (message:
    String)
    ensures
        message@ == skip_message(features@, flags@),
{
    let mut message: String = String::new();
    if features.len() > 0 {
        message.append("please add the following features to your configuration:\n");
        let ghost head = message@;
        let mut i: usize = 0;
        while i < features.len()
            invariant
                i <= features.len(),
                message@ == head + feature_lines(features@.take(i as int)),
            decreases features.len() - i,
        {
            assert(features@.take(i + 1).drop_last() =~= features@.take(i as int));
            message.append("\t[features.");
            message.append(features[i].name());
            message.append("]\n");
            assert(message@ =~= head + feature_lines(features@.take(i + 1)));
            i += 1;
        }
        assert(features@.take(i as int) =~= features@);
        assert(message@ =~= "please add the following features to your configuration:\n"@
            + feature_lines(features@));
    }
    let ghost first = message@;
    if flags.len() > 0 {
        message.append("please add the following flags to your configuration:\n");
        message.append("\tfile_flags = [");
        let ghost head = message@;
        let mut i: usize = 0;
        while i < flags.len()
            invariant
                i <= flags.len(),
                message@ == head + quoted_flags(flags@.take(i as int)),
            decreases flags.len() - i,
        {
            assert(flags@.take(i + 1).drop_last() =~= flags@.take(i as int));
            if i > 0 {
                message.append(", ");
            }
            message.append("\"");
            message.append(flags[i].name());
            message.append("\"");
            assert(message@ =~= head + quoted_flags(flags@.take(i + 1)));
            i += 1;
        }
        assert(flags@.take(i as int) =~= flags@);
        message.append("]\n");
        assert(message@ =~= first + ("please add the following flags to your configuration:\n"@
            + "\tfile_flags = ["@ + quoted_flags(flags@) + "]\n"@));
    }
    assert(message@ =~= skip_message(features@, flags@));
    message
}

/// Writes what is printed for a skipped test case.
pub fn write_skip_report(name: &str, message: &str) -> (report: String)
    ensures
        report@ == skip_report(name@, message@),
{
    let mut report: String = "skipped '".to_owned();
    report.append(name);
    report.append("'\n");
    report.append(message);
    report
}

/// What the runner does with a test case.
#[derive(Debug, PartialEq, Eq)]
pub enum Decision {
    /// It is skipped, for want of these features and file flags; `report` is
    /// what is printed about it.
    Skip { missing_features: Vec<FileSystemFeature>, missing_flags: Vec<FileFlags>, report: String },
    /// It runs, in this lane.
    Run(Lane),
}

/// `Decision` with its lists and strings as sequences.
pub enum DecisionView {
    Skip { missing_features: Seq<FileSystemFeature>, missing_flags: Seq<FileFlags>, report: Seq<char> },
    Run(Lane),
}

impl View for Decision {
    type V = DecisionView;

    open spec fn view(&self) -> DecisionView {
        match self {
            Decision::Skip { missing_features, missing_flags, report } => DecisionView::Skip {
                missing_features: missing_features@,
                missing_flags: missing_flags@,
                report: report@,
            },
            Decision::Run(lane) => DecisionView::Run(*lane),
        }
    }
}

/// What the runner does with `case` under a configuration that enables
/// `enabled_features` and `enabled_flags`.
///
/// The case is skipped when it requires a feature that is not enabled, or,
/// on a platform that has file flags, a file flag that is not enabled. Else
/// it runs, in the lane that it declares.
pub open spec fn spec_decide(
    case: TestCaseView,
    enabled_features: Seq<FileSystemFeature>,
    enabled_flags: Seq<FileFlags>,
    flags_supported: bool,
) -> DecisionView {
    let missing_features = missing(case.required_features, enabled_features);
    let missing_flags = if flags_supported {
        missing(case.required_file_flags, enabled_flags)
    } else {
        Seq::empty()
    };
    if missing_features.len() > 0 || missing_flags.len() > 0 {
        DecisionView::Skip {
            missing_features,
            missing_flags,
            report: skip_report(case.name, skip_message(missing_features, missing_flags)),
        }
    } else {
        DecisionView::Run(Lane::spec_for_case(case.serialized()))
    }
}

/// Decides whether `case` runs under `config`, and in which lane.
/// `flags_supported` says whether the platform has file flags at all.
pub fn decide(case: &TestCase, config: &FeaturesConfig, flags_supported: bool) -> (decision:
    Decision)
    ensures
        decision@ == spec_decide(
            case@,
            config.spec_enabled_features(),
            config.file_flags@,
            flags_supported,
        ),
{
    let enabled: Vec<FileSystemFeature> = config.enabled_features();
    let missing_features: Vec<FileSystemFeature> = missing_features(
        &case.required_features,
        &enabled,
    );
    let missing_flags: Vec<FileFlags> = if flags_supported {
        missing_flags(&case.required_file_flags, &config.file_flags)
    } else {
        Vec::new()
    };
    if missing_features.len() > 0 || missing_flags.len() > 0 {
        let message: String = write_skip_message(&missing_features, &missing_flags);
        let report: String = write_skip_report(case.name.as_str(), message.as_str());
        Decision::Skip { missing_features, missing_flags, report }
    } else {
        Decision::Run(Lane::for_case(case.serialized()))
    }
}

/// A test case is skipped exactly when something it requires is not
/// enabled; what is missing is then exactly what is required and not
/// enabled.
pub proof fn lemma_skip_exactly_when_missing(
    case: TestCaseView,
    enabled_features: Seq<FileSystemFeature>,
    enabled_flags: Seq<FileFlags>,
    flags_supported: bool,
)
    ensures
        spec_decide(case, enabled_features, enabled_flags, flags_supported) is Run <==> (forall|
            i: int,
        |
            0 <= i < case.required_features.len() ==> enabled_features.contains(
                #[trigger] case.required_features[i],
            )) && (flags_supported ==> forall|i: int|
            0 <= i < case.required_file_flags.len() ==> enabled_flags.contains(
                #[trigger] case.required_file_flags[i],
            )),
        spec_decide(
            case,
            enabled_features,
            enabled_flags,
            flags_supported,
        ) matches DecisionView::Skip { missing_features, missing_flags, .. } ==> (forall|
            feature: FileSystemFeature,
        | #[trigger]
            missing_features.contains(feature) <==> case.required_features.contains(feature)
                && !enabled_features.contains(feature)) && (forall|flag: FileFlags| #[trigger]
            missing_flags.contains(flag) <==> flags_supported && case.required_file_flags.contains(
                flag,
            ) && !enabled_flags.contains(flag)),
{
    lemma_missing_is_difference(case.required_features, enabled_features);
    lemma_missing_is_difference(case.required_file_flags, enabled_flags);
}

} // verus!
