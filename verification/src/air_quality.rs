//! Air-quality status: the five CAQI severity buckets and their labels.

use vstd::prelude::*;

verus! {

/// Severity bucket of a CAQI reading, from best to worst.
#[derive(Clone, Copy, Debug, PartialEq, Eq, Structural)]
pub enum AqiLevel {
    Excellent,
    Good,
    Moderate,
    Poor,
    Hazardous,
}

impl AqiLevel {
    /// Position of the bucket on the severity scale: 0 is the best air.
    pub open spec fn severity(self) -> nat {
        match self {
            AqiLevel::Excellent => 0,
            AqiLevel::Good => 1,
            AqiLevel::Moderate => 2,
            AqiLevel::Poor => 3,
            AqiLevel::Hazardous => 4,
        }
    }

    /// The text shown for the bucket.
    pub open spec fn label_text(self) -> Seq<char> {
        match self {
            AqiLevel::Excellent => "Can't get better"@,
            AqiLevel::Good => "Take a breath in"@,
            AqiLevel::Moderate => "It's ok..."@,
            AqiLevel::Poor => "Bad, but you won't die."@,
            AqiLevel::Hazardous => "Hazardous!"@,
        }
    }

    /// The text shown for the bucket.
    pub fn label(self) -> (text: &'static str)
        ensures
            text@ == self.label_text(),
    {
        match self {
            AqiLevel::Excellent => "Can't get better",
            AqiLevel::Good => "Take a breath in",
            AqiLevel::Moderate => "It's ok...",
            AqiLevel::Poor => "Bad, but you won't die.",
            AqiLevel::Hazardous => "Hazardous!",
        }
    }
}

/// The bucket of a truncated CAQI value: `[0, 33]`, `[34, 66]`, `[67, 99]`,
/// `[100, 150]`, and everything else. A value below zero is no CAQI reading
/// and falls in the last bucket with the values above 150.
pub open spec fn level_of(caqi: int) -> AqiLevel {
    if 0 <= caqi <= 33 {
        AqiLevel::Excellent
    } else if 34 <= caqi <= 66 {
        AqiLevel::Good
    } else if 67 <= caqi <= 99 {
        AqiLevel::Moderate
    } else if 100 <= caqi <= 150 {
        AqiLevel::Poor
    } else {
        AqiLevel::Hazardous
    }
}

/// Classifies a CAQI value that was truncated to an integer.
pub fn aqi_level(caqi: i32) -> (level: AqiLevel)
    ensures
        level == level_of(caqi as int),
{
    if caqi < 0 {
        AqiLevel::Hazardous
    } else if caqi <= 33 {
        AqiLevel::Excellent
    } else if caqi <= 66 {
        AqiLevel::Good
    } else if caqi <= 99 {
        AqiLevel::Moderate
    } else if caqi <= 150 {
        AqiLevel::Poor
    } else {
        AqiLevel::Hazardous
    }
}

/// The status label for a CAQI value that was truncated to an integer.
pub fn caqi_to_status(caqi: i32) -> (status: String)
    ensures
        status@ == level_of(caqi as int).label_text(),
{
    String::from_str(aqi_level(caqi).label())
}

/// Two different buckets never share a label.
pub proof fn lemma_labels_distinct(a: AqiLevel, b: AqiLevel)
    ensures
        a.label_text() == b.label_text() <==> a == b,
{
    reveal_strlit("Can't get better");
    reveal_strlit("Take a breath in");
    reveal_strlit("It's ok...");
    reveal_strlit("Bad, but you won't die.");
    reveal_strlit("Hazardous!");
    if a != b && a.label_text() == b.label_text() {
        assert(a.label_text()[0] == b.label_text()[0]);
    }
}

/// The label changes exactly where a bucket ends: between 33 and 34, 66 and
/// 67, 99 and 100, and 150 and 151.
pub proof fn lemma_bucket_boundaries()
    ensures
        level_of(33).label_text() != level_of(34).label_text(),
        level_of(66).label_text() != level_of(67).label_text(),
        level_of(99).label_text() != level_of(100).label_text(),
        level_of(150).label_text() != level_of(151).label_text(),
{
    lemma_labels_distinct(level_of(33), level_of(34));
    lemma_labels_distinct(level_of(66), level_of(67));
    lemma_labels_distinct(level_of(99), level_of(100));
    lemma_labels_distinct(level_of(150), level_of(151));
}

/// Over the CAQI scale, which starts at zero, a higher value is never in a
/// milder bucket than a lower one.
pub proof fn lemma_severity_monotonic(lower: int, higher: int)
    requires
        0 <= lower <= higher,
    ensures
        level_of(lower).severity() <= level_of(higher).severity(),
{
}

} // verus!
