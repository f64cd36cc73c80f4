//! The messages of the validation layers, and how the program words them.
use vstd::prelude::*;
use vulkano::instance::debug::{DebugUtilsMessageSeverity, DebugUtilsMessageType};

use crate::vulkan;
use crate::vulkan::{
    error_severity, general_type, info_severity, performance_type, validation_type,
    verbose_severity, warning_severity,
};
use crate::vulkan::{
    ERROR_BIT, GENERAL_BIT, INFO_BIT, PERFORMANCE_BIT, VALIDATION_BIT, VERBOSE_BIT, WARNING_BIT,
};

verus! {

/// The bits of the severities that have a word.
pub open spec fn worded_severities() -> Set<u32> {
    set![ERROR_BIT, WARNING_BIT, INFO_BIT, VERBOSE_BIT]
}

/// The bits of the types that have a word.
pub open spec fn worded_types() -> Set<u32> {
    set![GENERAL_BIT, VALIDATION_BIT, PERFORMANCE_BIT]
}

/// The word for a severity: that of the gravest bit that is set.
pub open spec fn severity_word(bits: Set<u32>) -> Seq<char> {
    if bits.contains(ERROR_BIT) {
        "error"@
    } else if bits.contains(WARNING_BIT) {
        "warning"@
    } else if bits.contains(INFO_BIT) {
        "information"@
    } else {
        "verbose"@
    }
}

/// The word for a message type: that of the lowest bit that is set.
pub open spec fn type_word(bits: Set<u32>) -> Seq<char> {
    if bits.contains(GENERAL_BIT) {
        "general"@
    } else if bits.contains(VALIDATION_BIT) {
        "validation"@
    } else {
        "performance"@
    }
}

/// A message has words for its severity and for its type.
pub open spec fn has_words(
    severity: DebugUtilsMessageSeverity,
    message_type: DebugUtilsMessageType,
) -> bool {
    &&& !vulkan::severity_bits(severity).disjoint(worded_severities())
    &&& !vulkan::message_type_bits(message_type).disjoint(worded_types())
}

/// The text of the line that reports a message; a message without a name is `unknown`.
pub open spec fn message_text(
    id_name: Option<Seq<char>>,
    type_word: Seq<char>,
    severity_word: Seq<char>,
    message: Seq<char>,
) -> Seq<char> {
    let name = match id_name {
        Some(name) => name,
        None => "unknown"@,
    };
    name + " "@ + type_word + " "@ + severity_word + ": "@ + message
}

/// The severities that the program subscribes to.
pub fn subscribed_severities() -> (severities: DebugUtilsMessageSeverity)
    ensures
        vulkan::severity_bits(severities) == worded_severities(),
{
    let severities = error_severity().union(warning_severity()).union(info_severity()).union(
        verbose_severity(),
    );
    assert(vulkan::severity_bits(severities) =~= worded_severities());
    severities
}

/// The message types that the program subscribes to.
pub fn subscribed_types() -> (types: DebugUtilsMessageType)
    ensures
        vulkan::message_type_bits(types) == worded_types(),
{
    let types = general_type().union(validation_type()).union(performance_type());
    assert(vulkan::message_type_bits(types) =~= worded_types());
    types
}

/// Whether the severity has the bit that `flag` consists of.
fn has_severity(
    severity: DebugUtilsMessageSeverity,
    flag: DebugUtilsMessageSeverity,
    Ghost(bit): Ghost<u32>,
) -> (set: bool)
    requires
        vulkan::severity_bits(flag) == set![bit],
    ensures
        set == vulkan::severity_bits(severity).contains(bit),
{
    assert(vulkan::severity_bits(flag).contains(bit));
    severity.intersects(flag)
}

/// Whether the message type has the bit that `flag` consists of.
fn has_type(
    message_type: DebugUtilsMessageType,
    flag: DebugUtilsMessageType,
    Ghost(bit): Ghost<u32>,
) -> (set: bool)
    requires
        vulkan::message_type_bits(flag) == set![bit],
    ensures
        set == vulkan::message_type_bits(message_type).contains(bit),
{
    assert(vulkan::message_type_bits(flag).contains(bit));
    message_type.intersects(flag)
}

/// The word for a severity.
pub fn severity_label(severity: DebugUtilsMessageSeverity) -> (label: &'static str)
    requires
        !vulkan::severity_bits(severity).disjoint(worded_severities()),
    ensures
        label@ == severity_word(vulkan::severity_bits(severity)),
{
    if has_severity(severity, error_severity(), Ghost(ERROR_BIT)) {
        "error"
    } else if has_severity(severity, warning_severity(), Ghost(WARNING_BIT)) {
        "warning"
    } else if has_severity(severity, info_severity(), Ghost(INFO_BIT)) {
        "information"
    } else {
        "verbose"
    }
}

/// The word for a message type.
pub fn type_label(message_type: DebugUtilsMessageType) -> (label: &'static str)
    requires
        !vulkan::message_type_bits(message_type).disjoint(worded_types()),
    ensures
        label@ == type_word(vulkan::message_type_bits(message_type)),
{
    if has_type(message_type, general_type(), Ghost(GENERAL_BIT)) {
        "general"
    } else if has_type(message_type, validation_type(), Ghost(VALIDATION_BIT)) {
        "validation"
    } else {
        "performance"
    }
}

/// The line that reports a message: its name, type and severity, and its text.
pub fn message_line(
    id_name: Option<&str>,
    message_type: DebugUtilsMessageType,
    severity: DebugUtilsMessageSeverity,
    message: &str,
) -> (line: String)
    requires
        has_words(severity, message_type),
    ensures
        line@ == message_text(
            match id_name {
                Some(name) => Some(name@),
                None => None,
            },
            type_word(vulkan::message_type_bits(message_type)),
            severity_word(vulkan::severity_bits(severity)),
            message@,
        ),
{
    let mut line = String::new();
    line.append(id_name.unwrap_or("unknown"));
    line.append(" ");
    line.append(type_label(message_type));
    line.append(" ");
    line.append(severity_label(severity));
    line.append(": ");
    line.append(message);
    line
}

/// Whether a message has words for its severity and for its type.
pub fn message_has_words(
    severity: DebugUtilsMessageSeverity,
    message_type: DebugUtilsMessageType,
) -> (worded: bool)
    ensures
        worded == has_words(severity, message_type),
{
    severity.intersects(subscribed_severities()) && message_type.intersects(subscribed_types())
}

/// The line that reports a message, unless there is no word for its severity or its type.
pub fn report_message(
    id_name: Option<&str>,
    message_type: DebugUtilsMessageType,
    severity: DebugUtilsMessageSeverity,
    message: &str,
) -> (line: Option<String>)
    ensures
        line is Some <==> has_words(severity, message_type),
        line matches Some(line) ==> line@ == message_text(
            match id_name {
                Some(name) => Some(name@),
                None => None,
            },
            type_word(vulkan::message_type_bits(message_type)),
            severity_word(vulkan::severity_bits(severity)),
            message@,
        ),
{
    if message_has_words(severity, message_type) {
        Some(message_line(id_name, message_type, severity, message))
    } else {
        None
    }
}

/// The line that reports which device was chosen.
pub fn device_line(name: &str, device_type: &str) -> (line: String)
    ensures
        line@ == "Using device: "@ + name@ + " (type: "@ + device_type@ + ")"@,
{
    let mut line = String::new();
    line.append("Using device: ");
    line.append(name);
    line.append(" (type: ");
    line.append(device_type);
    line.append(")");
    line
}

/// A message that a subscription to all subscribed severities and types brings has words: it
/// has a bit of each, and no other bits.
pub proof fn lemma_subscribed_messages_have_words(
    severity: DebugUtilsMessageSeverity,
    message_type: DebugUtilsMessageType,
)
    requires
        vulkan::severity_bits(severity) != Set::<u32>::empty(),
        vulkan::severity_bits(severity).subset_of(worded_severities()),
        vulkan::message_type_bits(message_type) != Set::<u32>::empty(),
        vulkan::message_type_bits(message_type).subset_of(worded_types()),
    ensures
        has_words(severity, message_type),
{
    let severity_bit = choose|bit: u32| vulkan::severity_bits(severity).contains(bit);
    if forall|bit: u32| !vulkan::severity_bits(severity).contains(bit) {
        assert(vulkan::severity_bits(severity) =~= Set::<u32>::empty());
    }
    assert(worded_severities().contains(severity_bit));
    let type_bit = choose|bit: u32| vulkan::message_type_bits(message_type).contains(bit);
    if forall|bit: u32| !vulkan::message_type_bits(message_type).contains(bit) {
        assert(vulkan::message_type_bits(message_type) =~= Set::<u32>::empty());
    }
    assert(worded_types().contains(type_bit));
}

/// The gravest bit has the word, whatever other bits are set: `error` wherever there is an error,
/// then `warning`, then `information`; `verbose` is left where none of the three is set.
pub proof fn lemma_gravest_bit_has_the_word(bits: Set<u32>)
    ensures
        severity_word(bits.insert(ERROR_BIT)) == "error"@,
        severity_word(bits.remove(ERROR_BIT).insert(WARNING_BIT)) == "warning"@,
        severity_word(bits.remove(ERROR_BIT).remove(WARNING_BIT).insert(INFO_BIT))
            == "information"@,
        severity_word(bits.remove(ERROR_BIT).remove(WARNING_BIT).remove(INFO_BIT))
            == "verbose"@,
{
}

/// A bit changes the word of a severity only where it is graver than every bit that was set: one
/// that is less grave, or that has no word, makes no difference.
pub proof fn lemma_lesser_bits_keep_the_word(bits: Set<u32>, grave: u32, lesser: u32)
    requires
        worded_severities().contains(grave),
        bits.contains(grave),
        worded_severities().contains(lesser) ==> lesser < grave,
    ensures
        severity_word(bits.insert(lesser)) == severity_word(bits),
        severity_word(bits.remove(lesser)) == severity_word(bits),
{
}

/// The lowest bit has the word of a message type: `general` wherever it is set, then `validation`;
/// `performance` is left where neither is set.
pub proof fn lemma_lowest_type_has_the_word(bits: Set<u32>)
    ensures
        type_word(bits.insert(GENERAL_BIT)) == "general"@,
        type_word(bits.remove(GENERAL_BIT).insert(VALIDATION_BIT)) == "validation"@,
        type_word(bits.remove(GENERAL_BIT).remove(VALIDATION_BIT)) == "performance"@,
{
}

/// A bit changes the word of a message type only where it is lower than every bit that was set.
pub proof fn lemma_higher_types_keep_the_word(bits: Set<u32>, low: u32, higher: u32)
    requires
        worded_types().contains(low),
        bits.contains(low),
        worded_types().contains(higher) ==> low < higher,
    ensures
        type_word(bits.insert(higher)) == type_word(bits),
        type_word(bits.remove(higher)) == type_word(bits),
{
}

/// A message has words if and only if it has one of the four bits of severity and one of the three
/// bits of type; what other bits it has makes no difference.
pub proof fn lemma_one_bit_each_gives_words(
    severity: DebugUtilsMessageSeverity,
    message_type: DebugUtilsMessageType,
)
    ensures
        ({
            let severity_bits = vulkan::severity_bits(severity);
            let type_bits = vulkan::message_type_bits(message_type);
            has_words(severity, message_type) <==> {
                &&& severity_bits.contains(VERBOSE_BIT) || severity_bits.contains(INFO_BIT)
                    || severity_bits.contains(WARNING_BIT) || severity_bits.contains(ERROR_BIT)
                &&& type_bits.contains(GENERAL_BIT) || type_bits.contains(VALIDATION_BIT)
                    || type_bits.contains(PERFORMANCE_BIT)
            }
        }),
{
    let severities = worded_severities();
    assert(severities.contains(VERBOSE_BIT) && severities.contains(INFO_BIT));
    assert(severities.contains(WARNING_BIT) && severities.contains(ERROR_BIT));
    let types = worded_types();
    assert(types.contains(GENERAL_BIT) && types.contains(VALIDATION_BIT));
    assert(types.contains(PERFORMANCE_BIT));
}

/// More bits do not take the words from a message.
pub proof fn lemma_more_bits_keep_the_words(
    severity: DebugUtilsMessageSeverity,
    message_type: DebugUtilsMessageType,
    more_severity: DebugUtilsMessageSeverity,
    more_type: DebugUtilsMessageType,
)
    requires
        has_words(severity, message_type),
        vulkan::severity_bits(severity).subset_of(vulkan::severity_bits(more_severity)),
        vulkan::message_type_bits(message_type).subset_of(vulkan::message_type_bits(more_type)),
    ensures
        has_words(more_severity, more_type),
{
    lemma_one_bit_each_gives_words(severity, message_type);
    lemma_one_bit_each_gives_words(more_severity, more_type);
}

/// A message is reported word for word: the line starts with its name, ends with its text, and
/// between the two stand its type and its severity, with a space before each and a colon and a space
/// after them.
pub proof fn lemma_messages_are_reported_word_for_word(
    name: Seq<char>,
    type_word: Seq<char>,
    severity_word: Seq<char>,
    message: Seq<char>,
)
    ensures
        ({
            let line = message_text(Some(name), type_word, severity_word, message);
            let type_start = name.len() as int + 1;
            let severity_start = type_start + type_word.len() + 1;
            let message_start = severity_start + severity_word.len() + 2;
            &&& line.len() == message_start + message.len()
            &&& line.subrange(0, name.len() as int) == name
            &&& line[name.len() as int] == ' '
            &&& line.subrange(type_start, type_start + type_word.len()) == type_word
            &&& line[type_start + type_word.len()] == ' '
            &&& line.subrange(severity_start, severity_start + severity_word.len())
                == severity_word
            &&& line[severity_start + severity_word.len()] == ':'
            &&& line[severity_start + severity_word.len() + 1] == ' '
            &&& line.subrange(message_start, line.len() as int) == message
        }),
{
    reveal_strlit(" ");
    reveal_strlit(": ");
    let line = message_text(Some(name), type_word, severity_word, message);
    let type_start = name.len() as int + 1;
    let severity_start = type_start + type_word.len() + 1;
    let message_start = severity_start + severity_word.len() + 2;
    assert(line.subrange(0, name.len() as int) =~= name);
    assert(line.subrange(type_start, type_start + type_word.len()) =~= type_word);
    assert(line.subrange(severity_start, severity_start + severity_word.len())
        =~= severity_word);
    assert(line.subrange(message_start, line.len() as int) =~= message);
}

/// A message without a name is reported as one with the name `unknown`.
pub proof fn lemma_nameless_messages_are_unknown(
    type_word: Seq<char>,
    severity_word: Seq<char>,
    message: Seq<char>,
)
    ensures
        message_text(None, type_word, severity_word, message) == message_text(
            Some("unknown"@),
            type_word,
            severity_word,
            message,
        ),
{
}

} // verus!
