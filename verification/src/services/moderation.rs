//! Content moderation.
//!
//! A text is judged against an ordered list of rule groups, each a set of
//! patterns. Groups are checked in strict precedence order and the first
//! group with a matching pattern decides:
//!
//! - **Rejected**: references to minors as task subjects, sexually explicit
//!   language, contact information, prohibited goods and activities.
//! - **Flagged for review**: coded or euphemistic language, vague content.
//!
//! Every rejecting group stands before every flagging group, so a text that
//! matches both is always rejected.
//!
//! Redaction is a second, independent operation: it replaces every match of
//! the contact-information patterns with `[removed]` and judges nothing.

use vstd::prelude::*;
use vstd::string::StringExecFns;
use vstd::pervasive::unreached;
use crate::services::pattern::{regex_compiles, regex_is_match, regex_replace_all, CompiledPattern};

verus! {

// Minors as task subjects.
pub const MINORS_CARE: &'static str = r"(?i)\b(?:child|children|kid|kids|minor|minors|underage|under[\s-]?age)\b.*\b(?:care|sit|watch|babysit|nanny|tutor)";
pub const MINORS_SERVICE: &'static str = r"(?i)\b(?:babysit|nanny|childcare|child[\s-]?care|daycare|day[\s-]?care)\b";

// Sexual services.
pub const SEXUAL_EXPLICIT: &'static str = r"(?i)\b(?:sex|sexual|erotic|nude|naked|porn|xxx|escort|massage.*happy|sensual)\b";
pub const SEXUAL_PLATFORM: &'static str = r"(?i)\b(?:onlyfans|cam[\s-]?girl|cam[\s-]?boy|sugar[\s-]?daddy|sugar[\s-]?baby)\b";
pub const SEXUAL_SOLICIT: &'static str = r"(?i)\b(?:hook[\s-]?up|friends[\s-]?with[\s-]?benefits|fwb|intimate[\s-]?services)\b";

// Contact information: phone numbers, email addresses, handles, URLs.
pub const CONTACT_PHONE_PLAIN: &'static str = r"\b\d{3}[\s.\-]?\d{3}[\s.\-]?\d{4}\b";
pub const CONTACT_PHONE_PAREN: &'static str = r"\b\(\d{3}\)\s*\d{3}[\s.\-]?\d{4}\b";
pub const CONTACT_PHONE_COUNTRY: &'static str = r"\+1[\s.\-]?\d{3}[\s.\-]?\d{3}[\s.\-]?\d{4}\b";
pub const CONTACT_EMAIL: &'static str = r"(?i)[a-z0-9._%+\-]+@[a-z0-9.\-]+\.[a-z]{2,}";
pub const CONTACT_HANDLE: &'static str = r"(?i)\b(?:@[a-z0-9_]{3,})\b";
pub const CONTACT_PLATFORM: &'static str = r"(?i)\b(?:instagram|insta|ig|snapchat|snap|telegram|whatsapp|signal|discord|twitter|x\.com|tiktok|facebook|fb)\b[\s:]*[a-z0-9@_.]+";
pub const CONTACT_URL: &'static str = r"(?i)(?:https?://|www\.)[^\s]+";

// Prohibited goods and activities.
pub const PROHIBITED_WEAPONS: &'static str = r"(?i)\b(?:weapons?|guns?|firearms?|ammunition|ammo|explosives?|bombs?)\b";
pub const PROHIBITED_DRUG_DEAL: &'static str = r"(?i)\b(?:sell|buy|deal|distribute|deliver)\b.*\b(?:drug|cocaine|heroin|meth|fentanyl|marijuana|weed|cannabis)\b";
pub const PROHIBITED_DRUG_OFFER: &'static str = r"(?i)\b(?:drug|cocaine|heroin|meth|fentanyl|marijuana|weed|cannabis)\b.*\b(?:sell|buy|deal|distribute|deliver)\b";
pub const PROHIBITED_GAMBLING: &'static str = r"(?i)\b(?:gambl(?:e|ing)|casino|betting|wager)\b";
pub const PROHIBITED_TRAFFICKING: &'static str = r"(?i)\b(?:trafficking|smuggl(?:e|ing)|forced[\s-]?labor)\b";

// Coded or euphemistic language.
pub const CODED_DISCREET: &'static str = r"(?i)\b(?:party|partying|good[\s-]?time|discreet|discrete|private[\s-]?meeting)\b";
pub const CODED_ARRANGEMENT: &'static str = r"(?i)\b(?:generous|arrangement|mutually[\s-]?beneficial|companionship)\b";
pub const CODED_FRIENDLY: &'static str = r"(?i)\b(?:420|friendly|chill|open[\s-]?minded)\b";

// Vague content: at most 20 characters on one line, or deflecting phrases.
pub const VAGUE_SHORT: &'static str = r"(?i)^.{0,20}$";
pub const VAGUE_DEFLECTION: &'static str = r"(?i)\b(?:you[\s-]?know[\s-]?what|iykyk|wink|dm[\s-]?me|text[\s-]?me)\b";

/// What redaction puts in place of a match.
pub const REDACTION_PLACEHOLDER: &'static str = "[removed]";

/// The rule groups, named by what they look for.
#[derive(Debug, Clone, Copy, PartialEq, Eq, Structural)]
pub enum ContentCategory {
    Minors,
    Sexual,
    ContactInfo,
    ProhibitedUse,
    CodedLanguage,
    Vague,
}

/// Content moderation result.
#[derive(Debug, Clone, PartialEq, Eq)]
pub enum ModerationResult {
    /// Content is clean and can be published immediately.
    Clean,
    /// Content is auto-rejected with a reason. No manual review needed.
    Rejected(String),
    /// Content is flagged for manual review with a reason.
    Flagged(String),
}

/// A moderation result as a mathematical value.
pub enum Verdict {
    Clean,
    Rejected(Seq<char>),
    Flagged(Seq<char>),
}

impl View for ModerationResult {
    type V = Verdict;

    open spec fn view(&self) -> Verdict {
        match self {
            ModerationResult::Clean => Verdict::Clean,
            ModerationResult::Rejected(reason) => Verdict::Rejected(reason@),
            ModerationResult::Flagged(reason) => Verdict::Flagged(reason@),
        }
    }
}

impl ContentCategory {
    /// Rejecting categories end a submission; the others queue it for a
    /// manual look.
    pub open spec fn rejects(self) -> bool {
        self is Minors || self is Sexual || self is ContactInfo || self is ProhibitedUse
    }

    /// The reason given for a match in this category.
    pub open spec fn reason(self) -> Seq<char> {
        match self {
            ContentCategory::Minors => "references minors as task subjects"@,
            ContentCategory::Sexual => "sexually explicit content"@,
            ContentCategory::ContactInfo => "contact information not allowed"@,
            ContentCategory::ProhibitedUse => "violates prohibited use policy"@,
            ContentCategory::CodedLanguage => "potentially coded language"@,
            ContentCategory::Vague => "vague or suspicious content"@,
        }
    }

    /// The verdict for a text whose first matching group is this one.
    pub open spec fn verdict(self) -> Verdict {
        if self.rejects() {
            Verdict::Rejected(self.reason())
        } else {
            Verdict::Flagged(self.reason())
        }
    }

    pub fn is_rejecting(&self) -> (r: bool)
        ensures
            r == self.rejects(),
    {
        match self {
            ContentCategory::Minors
            | ContentCategory::Sexual
            | ContentCategory::ContactInfo
            | ContentCategory::ProhibitedUse => true,
            ContentCategory::CodedLanguage | ContentCategory::Vague => false,
        }
    }

    pub fn reason_text(&self) -> (s: &'static str)
        ensures
            s@ == self.reason(),
    {
        match self {
            ContentCategory::Minors => "references minors as task subjects",
            ContentCategory::Sexual => "sexually explicit content",
            ContentCategory::ContactInfo => "contact information not allowed",
            ContentCategory::ProhibitedUse => "violates prohibited use policy",
            ContentCategory::CodedLanguage => "potentially coded language",
            ContentCategory::Vague => "vague or suspicious content",
        }
    }
}

/// The verdict when `first` is the first group that matched, or `Clean` when
/// no group did.
pub open spec fn verdict_of(first: Option<ContentCategory>) -> Verdict {
    match first {
        Some(category) => category.verdict(),
        None => Verdict::Clean,
    }
}

/// Turns the outcome of matching into a result: the first matching group
/// decides, and no match at all means clean.
pub fn verdict_for(first: Option<ContentCategory>) -> (r: ModerationResult)
    ensures
        r@ == verdict_of(first),
{
    match first {
        None => ModerationResult::Clean,
        Some(category) => {
            let reason = String::from_str(category.reason_text());
            if category.is_rejecting() {
                ModerationResult::Rejected(reason)
            } else {
                ModerationResult::Flagged(reason)
            }
        },
    }
}

/// One rule group as a mathematical value: what it looks for, and the
/// patterns that find it.
pub struct RuleSpec {
    pub category: ContentCategory,
    pub patterns: Seq<Seq<char>>,
}

/// One rule group: a category and the sources of its patterns.
pub struct RuleGroup {
    pub category: ContentCategory,
    pub patterns: Vec<&'static str>,
}

/// The character sequences of a list of pattern sources.
pub open spec fn pattern_texts(sources: Seq<&'static str>) -> Seq<Seq<char>> {
    Seq::new(sources.len(), |i: int| sources[i]@)
}

impl View for RuleGroup {
    type V = RuleSpec;

    open spec fn view(&self) -> RuleSpec {
        RuleSpec { category: self.category, patterns: pattern_texts(self.patterns@) }
    }
}

/// The mathematical values of a list of rule groups, in the same order.
pub open spec fn rule_specs(rules: Seq<RuleGroup>) -> Seq<RuleSpec> {
    Seq::new(rules.len(), |g: int| rules[g]@)
}

/// The fixed moderation policy, highest severity first.
pub open spec fn standard_rules() -> Seq<RuleSpec> {
    seq![
        RuleSpec {
            category: ContentCategory::Minors,
            patterns: seq![MINORS_CARE@, MINORS_SERVICE@],
        },
        RuleSpec {
            category: ContentCategory::Sexual,
            patterns: seq![SEXUAL_EXPLICIT@, SEXUAL_PLATFORM@, SEXUAL_SOLICIT@],
        },
        RuleSpec { category: ContentCategory::ContactInfo, patterns: contact_patterns() },
        RuleSpec {
            category: ContentCategory::ProhibitedUse,
            patterns: seq![
                PROHIBITED_WEAPONS@,
                PROHIBITED_DRUG_DEAL@,
                PROHIBITED_DRUG_OFFER@,
                PROHIBITED_GAMBLING@,
                PROHIBITED_TRAFFICKING@,
            ],
        },
        RuleSpec {
            category: ContentCategory::CodedLanguage,
            patterns: seq![CODED_DISCREET@, CODED_ARRANGEMENT@, CODED_FRIENDLY@],
        },
        RuleSpec {
            category: ContentCategory::Vague,
            patterns: seq![VAGUE_SHORT@, VAGUE_DEFLECTION@],
        },
    ]
}

/// The contact-information patterns, shared by judging and redaction.
pub open spec fn contact_patterns() -> Seq<Seq<char>> {
    seq![
        CONTACT_PHONE_PLAIN@,
        CONTACT_PHONE_PAREN@,
        CONTACT_PHONE_COUNTRY@,
        CONTACT_EMAIL@,
        CONTACT_HANDLE@,
        CONTACT_PLATFORM@,
        CONTACT_URL@,
    ]
}

/// The policy reduced to its contact-information group.
pub open spec fn contact_rules() -> Seq<RuleSpec> {
    seq![RuleSpec { category: ContentCategory::ContactInfo, patterns: contact_patterns() }]
}

/// The contact-information group as a value to build a classifier from.
pub fn contact_rule_group() -> (group: RuleGroup)
    ensures
        group@ == (RuleSpec { category: ContentCategory::ContactInfo, patterns: contact_patterns() }),
{
    let patterns: Vec<&'static str> = vec![
        CONTACT_PHONE_PLAIN,
        CONTACT_PHONE_PAREN,
        CONTACT_PHONE_COUNTRY,
        CONTACT_EMAIL,
        CONTACT_HANDLE,
        CONTACT_PLATFORM,
        CONTACT_URL,
    ];
    assert(pattern_texts(patterns@) =~= contact_patterns());
    RuleGroup { category: ContentCategory::ContactInfo, patterns }
}

/// The fixed moderation policy as values to build a classifier from.
pub fn standard_rule_groups() -> (rules: Vec<RuleGroup>)
    ensures
        rule_specs(rules@) == standard_rules(),
{
    let minors: Vec<&'static str> = vec![MINORS_CARE, MINORS_SERVICE];
    let sexual: Vec<&'static str> = vec![SEXUAL_EXPLICIT, SEXUAL_PLATFORM, SEXUAL_SOLICIT];
    let prohibited: Vec<&'static str> = vec![
        PROHIBITED_WEAPONS,
        PROHIBITED_DRUG_DEAL,
        PROHIBITED_DRUG_OFFER,
        PROHIBITED_GAMBLING,
        PROHIBITED_TRAFFICKING,
    ];
    let coded: Vec<&'static str> = vec![CODED_DISCREET, CODED_ARRANGEMENT, CODED_FRIENDLY];
    let vague: Vec<&'static str> = vec![VAGUE_SHORT, VAGUE_DEFLECTION];
    proof {
        assert(pattern_texts(minors@) =~= standard_rules()[0].patterns);
        assert(pattern_texts(sexual@) =~= standard_rules()[1].patterns);
        assert(pattern_texts(prohibited@) =~= standard_rules()[3].patterns);
        assert(pattern_texts(coded@) =~= standard_rules()[4].patterns);
        assert(pattern_texts(vague@) =~= standard_rules()[5].patterns);
    }
    let rules: Vec<RuleGroup> = vec![
        RuleGroup { category: ContentCategory::Minors, patterns: minors },
        RuleGroup { category: ContentCategory::Sexual, patterns: sexual },
        contact_rule_group(),
        RuleGroup { category: ContentCategory::ProhibitedUse, patterns: prohibited },
        RuleGroup { category: ContentCategory::CodedLanguage, patterns: coded },
        RuleGroup { category: ContentCategory::Vague, patterns: vague },
    ];
    assert(rule_specs(rules@) =~= standard_rules());
    rules
}

/// Whether every pattern of a group is one that the engine accepts.
pub open spec fn group_compiles(patterns: Seq<Seq<char>>) -> bool {
    forall|i: int| 0 <= i < patterns.len() ==> regex_compiles(#[trigger] patterns[i])
}

/// Whether every pattern of every group is one that the engine accepts.
pub open spec fn rules_compile(rules: Seq<RuleSpec>) -> bool {
    forall|g: int| 0 <= g < rules.len() ==> group_compiles(#[trigger] rules[g].patterns)
}

/// Whether some pattern of the group has a match in the text.
pub open spec fn group_matches(patterns: Seq<Seq<char>>, text: Seq<char>) -> bool {
    exists|i: int| 0 <= i < patterns.len() && regex_is_match(#[trigger] patterns[i], text)
}

/// The category of the first group, from position `start` on, that matches
/// the text.
pub open spec fn first_match_from(rules: Seq<RuleSpec>, text: Seq<char>, start: int) -> Option<
    ContentCategory,
>
    decreases rules.len() - start,
{
    if start < 0 || start >= rules.len() {
        None
    } else if group_matches(rules[start].patterns, text) {
        Some(rules[start].category)
    } else {
        first_match_from(rules, text, start + 1)
    }
}

/// The category of the first group that matches the text, in the order of the
/// rules; `None` when no group matches.
pub open spec fn first_match(rules: Seq<RuleSpec>, text: Seq<char>) -> Option<ContentCategory> {
    first_match_from(rules, text, 0)
}

/// The category of the first group, from position `start` on, that matches
/// the text and is not of the category `skip`.
pub open spec fn first_match_except_from(
    rules: Seq<RuleSpec>,
    text: Seq<char>,
    skip: ContentCategory,
    start: int,
) -> Option<ContentCategory>
    decreases rules.len() - start,
{
    if start < 0 || start >= rules.len() {
        None
    } else if rules[start].category != skip && group_matches(rules[start].patterns, text) {
        Some(rules[start].category)
    } else {
        first_match_except_from(rules, text, skip, start + 1)
    }
}

/// The category of the first group that matches the text when the groups of
/// the category `skip` are left out.
pub open spec fn first_match_except(
    rules: Seq<RuleSpec>,
    text: Seq<char>,
    skip: ContentCategory,
) -> Option<ContentCategory> {
    first_match_except_from(rules, text, skip, 0)
}

/// The text after the first `count` patterns have each, in turn, had their
/// matches replaced by the placeholder.
pub open spec fn redacted_by(patterns: Seq<Seq<char>>, text: Seq<char>, count: nat) -> Seq<char>
    decreases count,
{
    if count == 0 {
        text
    } else {
        regex_replace_all(
            patterns[count - 1],
            redacted_by(patterns, text, (count - 1) as nat),
            REDACTION_PLACEHOLDER@,
        )
    }
}

/// The text after the contact-information groups among the first `count`
/// groups have been applied, in the order of the rules.
pub open spec fn redacted_through(rules: Seq<RuleSpec>, text: Seq<char>, count: nat) -> Seq<char>
    decreases count,
{
    if count == 0 {
        text
    } else {
        let before = redacted_through(rules, text, (count - 1) as nat);
        let group = rules[count - 1];
        if group.category is ContactInfo {
            redacted_by(group.patterns, before, group.patterns.len())
        } else {
            before
        }
    }
}

/// Whether some contact-information pattern of the rules has a match in the
/// text.
pub open spec fn has_contact_info(rules: Seq<RuleSpec>, text: Seq<char>) -> bool {
    exists|g: int|
        0 <= g < rules.len() && (#[trigger] rules[g]).category is ContactInfo && group_matches(
            rules[g].patterns,
            text,
        )
}

/// The text with contact information replaced by the placeholder.
pub open spec fn redacted(rules: Seq<RuleSpec>, text: Seq<char>) -> Seq<char> {
    redacted_through(rules, text, rules.len())
}

/// The verdict of the fixed policy on a text.
pub open spec fn standard_verdict(text: Seq<char>) -> Verdict {
    verdict_of(first_match(standard_rules(), text))
}

/// The fixed policy's redaction of a text.
pub open spec fn standard_redaction(text: Seq<char>) -> Seq<char> {
    redacted(contact_rules(), text)
}

/// A pattern of a rule set that the engine does not accept: the first one, in
/// the order of the rules.
#[derive(Debug, Clone, PartialEq, Eq)]
pub struct InvalidPattern {
    pub group: usize,
    pub index: usize,
    pub pattern: String,
}

impl InvalidPattern {
    /// This is the first pattern of `rules` that does not compile.
    pub open spec fn is_first_invalid_of(self, rules: Seq<RuleSpec>) -> bool {
        &&& self.group < rules.len()
        &&& self.index < rules[self.group as int].patterns.len()
        &&& self.pattern@ == rules[self.group as int].patterns[self.index as int]
        &&& !regex_compiles(self.pattern@)
        &&& forall|g: int| 0 <= g < self.group ==> group_compiles(#[trigger] rules[g].patterns)
        &&& forall|i: int|
            0 <= i < self.index ==> regex_compiles(
                #[trigger] rules[self.group as int].patterns[i],
            )
    }
}

/// A rule group with its patterns compiled.
struct CompiledGroup {
    category: ContentCategory,
    patterns: Vec<CompiledPattern>,
}

/// The character sequences that a list of compiled patterns stands for.
spec fn compiled_texts(patterns: Seq<CompiledPattern>) -> Seq<Seq<char>> {
    Seq::new(patterns.len(), |i: int| patterns[i]@)
}

impl View for CompiledGroup {
    type V = RuleSpec;

    closed spec fn view(&self) -> RuleSpec {
        RuleSpec { category: self.category, patterns: compiled_texts(self.patterns@) }
    }
}

/// Compiles the patterns of one group, stopping at the first that the engine
/// refuses and returning its position.
fn compile_group(sources: &Vec<&'static str>) -> (r: Result<Vec<CompiledPattern>, usize>)
    ensures
        match r {
            Ok(compiled) => {
                &&& group_compiles(pattern_texts(sources@))
                &&& compiled_texts(compiled@) == pattern_texts(sources@)
            },
            Err(index) => {
                &&& index < sources.len()
                &&& !regex_compiles(sources[index as int]@)
                &&& forall|i: int| 0 <= i < index ==> regex_compiles(#[trigger] sources[i]@)
            },
        },
{
    let mut compiled: Vec<CompiledPattern> = Vec::new();
    let mut i: usize = 0;
    while i < sources.len()
        invariant
            i <= sources.len(),
            compiled.len() == i,
            forall|k: int| 0 <= k < i ==> regex_compiles(#[trigger] sources[k]@),
            forall|k: int| 0 <= k < i ==> (#[trigger] compiled[k])@ == sources[k]@,
        decreases sources.len() - i,
    {
        match CompiledPattern::compile(sources[i]) {
            Ok(pattern) => {
                compiled.push(pattern);
            },
            Err(_) => {
                return Err(i);
            },
        }
        i += 1;
    }
    assert(compiled_texts(compiled@) =~= pattern_texts(sources@));
    Ok(compiled)
}

/// Whether some pattern of the group has a match in the text.
fn group_has_match(patterns: &Vec<CompiledPattern>, text: &str) -> (found: bool)
    ensures
        found == group_matches(compiled_texts(patterns@), text@),
{
    let mut i: usize = 0;
    while i < patterns.len()
        invariant
            i <= patterns.len(),
            forall|k: int| 0 <= k < i ==> !regex_is_match(#[trigger] compiled_texts(patterns@)[k], text@),
        decreases patterns.len() - i,
    {
        if patterns[i].is_match(text) {
            assert(regex_is_match(compiled_texts(patterns@)[i as int], text@));
            return true;
        }
        i += 1;
    }
    false
}

/// Replaces, pattern after pattern, every match in the text by the
/// placeholder.
fn redact_with(patterns: &Vec<CompiledPattern>, text: String) -> (out: String)
    ensures
        out@ == redacted_by(compiled_texts(patterns@), text@, patterns.len() as nat),
        !group_matches(compiled_texts(patterns@), text@) ==> out@ == text@,
{
    let mut result = text;
    let mut i: usize = 0;
    while i < patterns.len()
        invariant
            i <= patterns.len(),
            result@ == redacted_by(compiled_texts(patterns@), text@, i as nat),
            !group_matches(compiled_texts(patterns@), text@) ==> result@ == text@,
        decreases patterns.len() - i,
    {
        proof {
            if !group_matches(compiled_texts(patterns@), text@) {
                assert(!regex_is_match(compiled_texts(patterns@)[i as int], text@));
            }
        }
        result = patterns[i].replace_all(result.as_str(), REDACTION_PLACEHOLDER);
        i += 1;
    }
    result
}

/// A moderation policy with its patterns compiled, ready to judge texts.
///
/// Build it once and pass it by reference; it holds no other state.
pub struct ModerationClassifier {
    groups: Vec<CompiledGroup>,
}

impl ModerationClassifier {
    /// The rules that this classifier applies, in precedence order.
    pub closed spec fn rules(&self) -> Seq<RuleSpec> {
        Seq::new(self.groups@.len(), |g: int| self.groups@[g]@)
    }

    /// Compiles a rule set. Succeeds exactly when the engine accepts every
    /// pattern; otherwise reports the first pattern it refused.
    pub fn with_rules(rules: &Vec<RuleGroup>) -> (r: Result<ModerationClassifier, InvalidPattern>)
        ensures
            r is Ok <==> rules_compile(rule_specs(rules@)),
            r matches Ok(classifier) ==> classifier.rules() == rule_specs(rules@),
            r matches Err(invalid) ==> invalid.is_first_invalid_of(rule_specs(rules@)),
    {
        let mut groups: Vec<CompiledGroup> = Vec::new();
        let mut g: usize = 0;
        while g < rules.len()
            invariant
                g <= rules.len(),
                groups.len() == g,
                forall|k: int| 0 <= k < g ==> group_compiles(#[trigger] rule_specs(rules@)[k].patterns),
                forall|k: int| 0 <= k < g ==> (#[trigger] groups[k])@ == rules[k]@,
            decreases rules.len() - g,
        {
            match compile_group(&rules[g].patterns) {
                Ok(patterns) => {
                    groups.push(CompiledGroup { category: rules[g].category, patterns });
                },
                Err(index) => {
                    let invalid = InvalidPattern {
                        group: g,
                        index,
                        pattern: String::from_str(rules[g].patterns[index]),
                    };
                    proof {
                        let specs = rule_specs(rules@);
                        assert(specs[g as int].patterns[index as int] == rules[g as int].patterns[index as int]@);
                        assert forall|i: int| 0 <= i < index implies regex_compiles(
                            #[trigger] specs[g as int].patterns[i],
                        ) by {
                            assert(regex_compiles(rules[g as int].patterns[i]@));
                        }
                        assert(!group_compiles(specs[g as int].patterns));
                    }
                    return Err(invalid);
                },
            }
            g += 1;
        }
        let classifier = ModerationClassifier { groups };
        assert(classifier.rules() =~= rule_specs(rules@));
        Ok(classifier)
    }

    /// Compiles the fixed moderation policy.
    pub fn new() -> (r: Result<ModerationClassifier, InvalidPattern>)
        ensures
            r is Ok <==> rules_compile(standard_rules()),
            r matches Ok(classifier) ==> classifier.rules() == standard_rules(),
            r matches Err(invalid) ==> invalid.is_first_invalid_of(standard_rules()),
    {
        let rules = standard_rule_groups();
        ModerationClassifier::with_rules(&rules)
    }

    /// The category of the first rule group that matches the text.
    pub fn matched_category(&self, text: &str) -> (first: Option<ContentCategory>)
        ensures
            first == first_match(self.rules(), text@),
    {
        let mut g: usize = 0;
        while g < self.groups.len()
            invariant
                g <= self.groups.len(),
                first_match(self.rules(), text@) == first_match_from(self.rules(), text@, g as int),
            decreases self.groups.len() - g,
        {
            if group_has_match(&self.groups[g].patterns, text) {
                return Some(self.groups[g].category);
            }
            g += 1;
        }
        None
    }

    /// The category of the first rule group that matches the text, leaving
    /// out the groups of the category `skip`.
    pub fn matched_category_except(&self, text: &str, skip: ContentCategory) -> (first: Option<
        ContentCategory,
    >)
        ensures
            first == first_match_except(self.rules(), text@, skip),
    {
        let mut g: usize = 0;
        while g < self.groups.len()
            invariant
                g <= self.groups.len(),
                first_match_except(self.rules(), text@, skip) == first_match_except_from(
                    self.rules(),
                    text@,
                    skip,
                    g as int,
                ),
            decreases self.groups.len() - g,
        {
            if self.groups[g].category != skip && group_has_match(&self.groups[g].patterns, text) {
                return Some(self.groups[g].category);
            }
            g += 1;
        }
        None
    }

    /// Judges a text: the first matching group decides, and a text that no
    /// group matches is clean.
    pub fn classify(&self, text: &str) -> (r: ModerationResult)
        ensures
            r@ == verdict_of(first_match(self.rules(), text@)),
    {
        verdict_for(self.matched_category(text))
    }

    /// Replaces every match of the contact-information patterns with the
    /// placeholder and returns the sanitized text. A text in which those
    /// patterns find nothing comes back unchanged.
    pub fn redact(&self, text: &str) -> (out: String)
        ensures
            out@ == redacted(self.rules(), text@),
            !has_contact_info(self.rules(), text@) ==> out@ == text@,
    {
        let mut result = String::from_str(text);
        let mut g: usize = 0;
        while g < self.groups.len()
            invariant
                g <= self.groups.len(),
                result@ == redacted_through(self.rules(), text@, g as nat),
                !has_contact_info(self.rules(), text@) ==> result@ == text@,
            decreases self.groups.len() - g,
        {
            if matches!(self.groups[g].category, ContentCategory::ContactInfo) {
                proof {
                    if !has_contact_info(self.rules(), text@) {
                        assert(self.rules()[g as int].category is ContactInfo);
                        assert(!group_matches(self.rules()[g as int].patterns, text@));
                    }
                }
                result = redact_with(&self.groups[g].patterns, result);
            }
            g += 1;
        }
        result
    }
}

/// Whether the engine accepts the fixed policy's patterns; where it does,
/// [`moderate_content`] and [`strip_contact_info`] may be called.
pub fn standard_rules_usable() -> (usable: bool)
    ensures
        usable == rules_compile(standard_rules()),
        usable ==> rules_compile(contact_rules()),
{
    let usable = ModerationClassifier::new().is_ok();
    proof {
        if usable {
            assert(standard_rules()[2].patterns == contact_patterns());
            assert(group_compiles(standard_rules()[2].patterns));
        }
    }
    usable
}

/// Run the full content moderation pipeline on text content.
/// Returns the most severe result (Rejected > Flagged > Clean).
///
/// Compiles the policy on every call; hold a [`ModerationClassifier`] to
/// compile once.
pub fn moderate_content(text: &str) -> (r: ModerationResult)
    requires
        rules_compile(standard_rules()),
    ensures
        r@ == standard_verdict(text@),
{
    match ModerationClassifier::new() {
        Ok(classifier) => classifier.classify(text),
        Err(_) => unreached(),
    }
}

/// Strip contact information from text (used for messages, which are
/// sanitized rather than rejected).
pub fn strip_contact_info(text: &str) -> (out: String)
    requires
        rules_compile(contact_rules()),
    ensures
        out@ == standard_redaction(text@),
        !group_matches(contact_patterns(), text@) ==> out@ == text@,
{
    let rules: Vec<RuleGroup> = vec![contact_rule_group()];
    assert(rule_specs(rules@) =~= contact_rules());
    proof {
        if has_contact_info(contact_rules(), text@) {
            assert(group_matches(contact_patterns(), text@));
        }
    }
    match ModerationClassifier::with_rules(&rules) {
        Ok(classifier) => classifier.redact(text),
        Err(_) => unreached(),
    }
}

/// [`moderate_content`], or `None` where the engine refuses a pattern of the
/// policy.
pub fn try_moderate_content(text: &str) -> (r: Option<ModerationResult>)
    ensures
        r is Some <==> rules_compile(standard_rules()),
        r matches Some(result) ==> result@ == standard_verdict(text@),
{
    if standard_rules_usable() {
        Some(moderate_content(text))
    } else {
        None
    }
}

/// [`strip_contact_info`], or `None` where the engine refuses a pattern of
/// the policy.
pub fn try_strip_contact_info(text: &str) -> (r: Option<String>)
    ensures
        r is Some <==> rules_compile(standard_rules()),
        r matches Some(out) ==> out@ == standard_redaction(text@),
        r matches Some(out) ==> (!group_matches(contact_patterns(), text@) ==> out@ == text@),
{
    if standard_rules_usable() {
        Some(strip_contact_info(text))
    } else {
        None
    }
}

/// Why a price is suspicious, if it is: below the minimum of 500 cents, or
/// above 500,000 cents.
pub open spec fn price_suspicion(price_cents: int) -> Option<Seq<char>> {
    if price_cents < 500 {
        Some("Price below minimum ($5.00)"@)
    } else if price_cents > 500_000 {
        Some("Unusually high price — flagged for review"@)
    } else {
        None
    }
}

/// Check pricing for suspicious outliers. The category plays no part yet.
pub fn check_price_suspicious(price_cents: i64, _category_slug: &str) -> (r: Option<String>)
    ensures
        match r {
            Some(reason) => price_suspicion(price_cents as int) == Some(reason@),
            None => price_suspicion(price_cents as int) is None,
        },
{
    if price_cents < 500 {
        return Some(String::from_str("Price below minimum ($5.00)"));
    }
    if price_cents > 500_000 {
        return Some(String::from_str("Unusually high price — flagged for review"));
    }
    None
}

/// Rejecting groups all stand before flagging groups.
pub open spec fn severity_ordered(rules: Seq<RuleSpec>) -> bool {
    forall|i: int, j: int|
        0 <= i < j < rules.len() && (#[trigger] rules[j]).category.rejects() ==> (
        #[trigger] rules[i]).category.rejects()
}

/// What `first_match_from` returns is the category of a matching group at or
/// after `start` before which, from `start` on, no group matches.
pub proof fn lemma_first_match_from(rules: Seq<RuleSpec>, text: Seq<char>, start: int)
    requires
        0 <= start,
    ensures
        match first_match_from(rules, text, start) {
            Some(category) => exists|k: int|
                {
                    &&& start <= k < rules.len()
                    &&& #[trigger] group_matches(rules[k].patterns, text)
                    &&& rules[k].category == category
                    &&& forall|j: int| start <= j < k ==> !group_matches(rules[j].patterns, text)
                },
            None => forall|j: int| start <= j < rules.len() ==> !group_matches(rules[j].patterns, text),
        },
    decreases rules.len() - start,
{
    if start >= rules.len() {
    } else if group_matches(rules[start].patterns, text) {
    } else {
        lemma_first_match_from(rules, text, start + 1);
        match first_match_from(rules, text, start + 1) {
            Some(category) => {
                let k = choose|k: int|
                    {
                        &&& start + 1 <= k < rules.len()
                        &&& #[trigger] group_matches(rules[k].patterns, text)
                        &&& rules[k].category == category
                        &&& forall|j: int| start + 1 <= j < k ==> !group_matches(rules[j].patterns, text)
                    };
                assert(group_matches(rules[k].patterns, text));
            },
            None => {},
        }
    }
}

/// A text is clean exactly when no group of the rules matches it.
pub proof fn lemma_clean_iff_no_match(rules: Seq<RuleSpec>, text: Seq<char>)
    ensures
        verdict_of(first_match(rules, text)) is Clean <==> forall|g: int|
            0 <= g < rules.len() ==> !group_matches(rules[g].patterns, text),
{
    lemma_first_match_from(rules, text, 0);
}

/// Severity is monotonic: under rules that put rejecting groups first, a text
/// that matches any rejecting group is rejected, never merely flagged,
/// whatever else it matches.
pub proof fn lemma_reject_beats_flag(rules: Seq<RuleSpec>, text: Seq<char>, g: int)
    requires
        severity_ordered(rules),
        0 <= g < rules.len(),
        rules[g].category.rejects(),
        group_matches(rules[g].patterns, text),
    ensures
        verdict_of(first_match(rules, text)) is Rejected,
{
    lemma_first_match_from(rules, text, 0);
    let category = first_match(rules, text)->Some_0;
    let k = choose|k: int|
        {
            &&& 0 <= k < rules.len()
            &&& #[trigger] group_matches(rules[k].patterns, text)
            &&& rules[k].category == category
            &&& forall|j: int| 0 <= j < k ==> !group_matches(rules[j].patterns, text)
        };
    assert(k <= g);
    if k < g {
        assert(rules[g].category.rejects() ==> rules[k].category.rejects());
    }
}

/// The fixed policy puts its rejecting groups first.
pub proof fn lemma_standard_rules_severity_ordered()
    ensures
        severity_ordered(standard_rules()),
{
}

/// Judging and redaction read the same contact-information patterns: a text
/// that the fixed policy finds clean holds nothing for redaction to replace.
pub proof fn lemma_clean_text_has_no_contact_info(text: Seq<char>)
    requires
        standard_verdict(text) is Clean,
    ensures
        !group_matches(contact_patterns(), text),
        !has_contact_info(contact_rules(), text),
        !has_contact_info(standard_rules(), text),
{
    lemma_clean_iff_no_match(standard_rules(), text);
    assert(standard_rules()[2].patterns == contact_patterns());
    assert(!group_matches(standard_rules()[2].patterns, text));
}

} // verus!
