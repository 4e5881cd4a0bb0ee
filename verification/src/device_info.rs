//! What a machine reports about itself: a descriptor that identifies it and
//! usage samples that change from one reading to the next.

use crate::json::{
    field, lemma_view_unfolds, member, numeral_list, text_at, texts_view, unsigned_at,
    unsigned_list, Json, JsonNumber, JsonView, NumberView,
};
use vstd::prelude::*;
use vstd::std_specs::cmp::PartialEqSpecImpl;

verus! {

/// The descriptor of a machine: operating system, host and processor.
#[derive(Debug)]
pub struct MachineInfo {
    pub os: String,
    pub os_version: String,
    pub host_name: String,
    pub kernel_version: String,
    pub number_of_cpu: usize,
    pub arch: String,
    pub brand: String,
}

/// The mathematical value of a [`MachineInfo`].
pub struct MachineInfoView {
    pub os: Seq<char>,
    pub os_version: Seq<char>,
    pub host_name: Seq<char>,
    pub kernel_version: Seq<char>,
    pub number_of_cpu: usize,
    pub arch: Seq<char>,
    pub brand: Seq<char>,
}

impl View for MachineInfo {
    type V = MachineInfoView;

    open spec fn view(&self) -> MachineInfoView {
        MachineInfoView {
            os: self.os@,
            os_version: self.os_version@,
            host_name: self.host_name@,
            kernel_version: self.kernel_version@,
            number_of_cpu: self.number_of_cpu,
            arch: self.arch@,
            brand: self.brand@,
        }
    }
}

impl Clone for MachineInfo {
    fn clone(&self) -> (copy: Self)
        ensures
            copy@ == self@,
    {
        MachineInfo {
            os: self.os.clone(),
            os_version: self.os_version.clone(),
            host_name: self.host_name.clone(),
            kernel_version: self.kernel_version.clone(),
            number_of_cpu: self.number_of_cpu,
            arch: self.arch.clone(),
            brand: self.brand.clone(),
        }
    }
}

impl PartialEq for MachineInfo {
    fn eq(&self, other: &Self) -> (same: bool) {
        self.os == other.os && self.os_version == other.os_version && self.host_name
            == other.host_name && self.kernel_version == other.kernel_version
            && self.number_of_cpu == other.number_of_cpu && self.arch == other.arch && self.brand
            == other.brand
    }
}

impl Eq for MachineInfo {

}

impl PartialEqSpecImpl for MachineInfo {
    open spec fn obeys_eq_spec() -> bool {
        true
    }

    open spec fn eq_spec(&self, other: &Self) -> bool {
        self@ == other@
    }
}

/// One usage sample. The utilisation of each processor core, in percent, is
/// carried as the decimal numeral that stands for it on the wire, such as
/// `12.5`; the other readings are whole numbers. Two samples are equal where
/// all their readings are, the numerals letter for letter.
#[derive(Debug)]
pub struct MachineUsage {
    pub total_memory: u64,
    pub used_memory: u64,
    pub total_swap: u64,
    pub used_swap: u64,
    pub cpu_usage: Vec<String>,
    pub cpu_frequency: Vec<u64>,
    pub network_down: u64,
    pub network_up: u64,
}

/// The mathematical value of a [`MachineUsage`].
pub struct MachineUsageView {
    pub total_memory: u64,
    pub used_memory: u64,
    pub total_swap: u64,
    pub used_swap: u64,
    pub cpu_usage: Seq<Seq<char>>,
    pub cpu_frequency: Seq<u64>,
    pub network_down: u64,
    pub network_up: u64,
}

impl View for MachineUsage {
    type V = MachineUsageView;

    open spec fn view(&self) -> MachineUsageView {
        MachineUsageView {
            total_memory: self.total_memory,
            used_memory: self.used_memory,
            total_swap: self.total_swap,
            used_swap: self.used_swap,
            cpu_usage: self.cpu_usage@.map_values(|numeral: String| numeral@),
            cpu_frequency: self.cpu_frequency@,
            network_down: self.network_down,
            network_up: self.network_up,
        }
    }
}

/// A copy of a list of texts.
fn clone_texts(texts: &Vec<String>) -> (copy: Vec<String>)
    ensures
        copy@.map_values(|text: String| text@) == texts@.map_values(|text: String| text@),
{
    let mut copy: Vec<String> = Vec::new();
    let mut i: usize = 0;
    while i < texts.len()
        invariant
            i <= texts.len(),
            copy.len() == i,
            forall|j: int| 0 <= j < i ==> (#[trigger] copy[j])@ == texts[j]@,
        decreases texts.len() - i,
    {
        copy.push(texts[i].clone());
        i += 1;
    }
    assert(copy@.map_values(|text: String| text@) =~= texts@.map_values(|text: String| text@));
    copy
}

fn same_texts(left: &Vec<String>, right: &Vec<String>) -> (same: bool)
    ensures
        same == (left@.map_values(|text: String| text@) == right@.map_values(
            |text: String| text@,
        )),
{
    let ghost left_view = left@.map_values(|text: String| text@);
    let ghost right_view = right@.map_values(|text: String| text@);
    if left.len() != right.len() {
        assert(left_view.len() != right_view.len());
        return false;
    }
    let mut i: usize = 0;
    while i < left.len()
        invariant
            i <= left.len(),
            left.len() == right.len(),
            left_view == left@.map_values(|text: String| text@),
            right_view == right@.map_values(|text: String| text@),
            forall|j: int| 0 <= j < i ==> left_view[j] == right_view[j],
        decreases left.len() - i,
    {
        if !(left[i] == right[i]) {
            assert(left_view[i as int] != right_view[i as int]);
            return false;
        }
        i += 1;
    }
    assert(left_view =~= right_view);
    true
}

fn same_numbers(left: &Vec<u64>, right: &Vec<u64>) -> (same: bool)
    ensures
        same == (left@ == right@),
{
    if left.len() != right.len() {
        return false;
    }
    let mut i: usize = 0;
    while i < left.len()
        invariant
            i <= left.len(),
            left.len() == right.len(),
            forall|j: int| 0 <= j < i ==> left[j] == right[j],
        decreases left.len() - i,
    {
        if left[i] != right[i] {
            return false;
        }
        i += 1;
    }
    assert(left@ =~= right@);
    true
}

impl PartialEq for MachineUsage {
    fn eq(&self, other: &Self) -> (same: bool) {
        self.total_memory == other.total_memory && self.used_memory == other.used_memory
            && self.total_swap == other.total_swap && self.used_swap == other.used_swap
            && same_texts(&self.cpu_usage, &other.cpu_usage) && same_numbers(
            &self.cpu_frequency,
            &other.cpu_frequency,
        ) && self.network_down == other.network_down && self.network_up == other.network_up
    }
}

impl PartialEqSpecImpl for MachineUsage {
    open spec fn obeys_eq_spec() -> bool {
        true
    }

    open spec fn eq_spec(&self, other: &Self) -> bool {
        self@ == other@
    }
}

impl Clone for MachineUsage {
    fn clone(&self) -> (copy: Self)
        ensures
            copy@ == self@,
    {
        MachineUsage {
            total_memory: self.total_memory,
            used_memory: self.used_memory,
            total_swap: self.total_swap,
            used_swap: self.used_swap,
            cpu_usage: clone_texts(&self.cpu_usage),
            cpu_frequency: self.cpu_frequency.clone(),
            network_down: self.network_down,
            network_up: self.network_up,
        }
    }
}

/// The document that stands for a descriptor on the wire: an object with
/// one member for each part, named in camel case.
pub open spec fn machine_info_document(info: MachineInfoView) -> JsonView {
    JsonView::Object(
        seq![
            ("os"@, JsonView::Text(info.os)),
            ("osVersion"@, JsonView::Text(info.os_version)),
            ("hostName"@, JsonView::Text(info.host_name)),
            ("kernelVersion"@, JsonView::Text(info.kernel_version)),
            ("numberOfCpu"@, JsonView::Number(NumberView::Unsigned(info.number_of_cpu as u64))),
            ("arch"@, JsonView::Text(info.arch)),
            ("brand"@, JsonView::Text(info.brand)),
        ],
    )
}

/// The descriptor that a document stands for: the document is an object
/// that holds a text for each name and a whole number that fits for the
/// count of processors. Members that it holds besides are passed over.
pub open spec fn machine_info_of(document: JsonView) -> Option<MachineInfoView> {
    if text_at(document, "os"@) is Some && text_at(document, "osVersion"@) is Some && text_at(
        document,
        "hostName"@,
    ) is Some && text_at(document, "kernelVersion"@) is Some && unsigned_at(
        document,
        "numberOfCpu"@,
    ) is Some && unsigned_at(document, "numberOfCpu"@)->Some_0 <= usize::MAX && text_at(
        document,
        "arch"@,
    ) is Some && text_at(document, "brand"@) is Some {
        Some(
            MachineInfoView {
                os: text_at(document, "os"@)->Some_0,
                os_version: text_at(document, "osVersion"@)->Some_0,
                host_name: text_at(document, "hostName"@)->Some_0,
                kernel_version: text_at(document, "kernelVersion"@)->Some_0,
                number_of_cpu: unsigned_at(document, "numberOfCpu"@)->Some_0 as usize,
                arch: text_at(document, "arch"@)->Some_0,
                brand: text_at(document, "brand"@)->Some_0,
            },
        )
    } else {
        None
    }
}

/// A descriptor is read back from its document as it was.
pub proof fn lemma_machine_info_round_trip(info: MachineInfoView)
    ensures
        machine_info_of(machine_info_document(info)) == Some(info),
{
    reveal_with_fuel(member, 8);
    reveal_strlit("os");
    reveal_strlit("osVersion");
    reveal_strlit("hostName");
    reveal_strlit("kernelVersion");
    reveal_strlit("numberOfCpu");
    reveal_strlit("arch");
    reveal_strlit("brand");
    let document = machine_info_document(info);
    assert("os"@.len() == 2 && "osVersion"@.len() == 9 && "hostName"@.len() == 8);
    assert("kernelVersion"@.len() == 13 && "numberOfCpu"@.len() == 11);
    assert("arch"@.len() == 4 && "brand"@.len() == 5);
    assert(text_at(document, "os"@) == Some(info.os));
    assert(text_at(document, "osVersion"@) == Some(info.os_version));
    assert(text_at(document, "hostName"@) == Some(info.host_name));
    assert(text_at(document, "kernelVersion"@) == Some(info.kernel_version));
    assert(unsigned_at(document, "numberOfCpu"@) == Some(info.number_of_cpu as u64));
    assert(text_at(document, "arch"@) == Some(info.arch));
    assert(text_at(document, "brand"@) == Some(info.brand));
}

impl MachineInfo {
    /// The document that stands for the descriptor.
    pub fn to_document(&self) -> (json: Json)
        ensures
            json@ == machine_info_document(self@),
    {
        let members: Vec<(String, Json)> = vec![
            ("os".to_owned(), Json::Text(self.os.clone())),
            ("osVersion".to_owned(), Json::Text(self.os_version.clone())),
            ("hostName".to_owned(), Json::Text(self.host_name.clone())),
            ("kernelVersion".to_owned(), Json::Text(self.kernel_version.clone())),
            ("numberOfCpu".to_owned(), Json::Number(JsonNumber::Unsigned(self.number_of_cpu as u64))),
            ("arch".to_owned(), Json::Text(self.arch.clone())),
            ("brand".to_owned(), Json::Text(self.brand.clone())),
        ];
        let json = Json::Object(members);
        proof {
            lemma_view_unfolds(json);
            lemma_view_unfolds(members[0].1);
            lemma_view_unfolds(members[1].1);
            lemma_view_unfolds(members[2].1);
            lemma_view_unfolds(members[3].1);
            lemma_view_unfolds(members[4].1);
            lemma_view_unfolds(members[5].1);
            lemma_view_unfolds(members[6].1);
            assert(json@->Object_0 =~= machine_info_document(self@)->Object_0);
        }
        json
    }

    /// The descriptor that `document` stands for, if it stands for one.
    pub fn from_document(document: &Json) -> (found: Option<MachineInfo>)
        ensures
            match found {
                Some(info) => machine_info_of(document@) == Some(info@),
                None => machine_info_of(document@) is None,
            },
    {
        let os = match document.get_text("os") {
            Some(text) => text,
            None => { return None; },
        };
        let os_version = match document.get_text("osVersion") {
            Some(text) => text,
            None => { return None; },
        };
        let host_name = match document.get_text("hostName") {
            Some(text) => text,
            None => { return None; },
        };
        let kernel_version = match document.get_text("kernelVersion") {
            Some(text) => text,
            None => { return None; },
        };
        let number_of_cpu = match document.get_unsigned("numberOfCpu") {
            Some(n) => n,
            None => { return None; },
        };
        let arch = match document.get_text("arch") {
            Some(text) => text,
            None => { return None; },
        };
        let brand = match document.get_text("brand") {
            Some(text) => text,
            None => { return None; },
        };
        if number_of_cpu > usize::MAX as u64 {
            return None;
        }
        Some(
            MachineInfo {
                os,
                os_version,
                host_name,
                kernel_version,
                number_of_cpu: number_of_cpu as usize,
                arch,
                brand,
            },
        )
    }
}

/// The list of the numbers that the numerals of `numerals` stand for.
pub open spec fn numerals_document(numerals: Seq<Seq<char>>) -> JsonView {
    JsonView::List(
        Seq::new(numerals.len(), |i: int| JsonView::Number(NumberView::Real(numerals[i]))),
    )
}

/// The list of the whole numbers of `numbers`.
pub open spec fn unsigneds_document(numbers: Seq<u64>) -> JsonView {
    JsonView::List(
        Seq::new(numbers.len(), |i: int| JsonView::Number(NumberView::Unsigned(numbers[i]))),
    )
}

/// The document that stands for a usage sample on the wire: an object with
/// one member for each reading, named in camel case.
pub open spec fn machine_usage_document(usage: MachineUsageView) -> JsonView {
    JsonView::Object(
        seq![
            ("totalMemory"@, JsonView::Number(NumberView::Unsigned(usage.total_memory))),
            ("usedMemory"@, JsonView::Number(NumberView::Unsigned(usage.used_memory))),
            ("totalSwap"@, JsonView::Number(NumberView::Unsigned(usage.total_swap))),
            ("usedSwap"@, JsonView::Number(NumberView::Unsigned(usage.used_swap))),
            ("cpuUsage"@, numerals_document(usage.cpu_usage)),
            ("cpuFrequency"@, unsigneds_document(usage.cpu_frequency)),
            ("networkDown"@, JsonView::Number(NumberView::Unsigned(usage.network_down))),
            ("networkUp"@, JsonView::Number(NumberView::Unsigned(usage.network_up))),
        ],
    )
}

/// The numerals of the list that the member `key` of a document holds.
pub open spec fn numerals_at(document: JsonView, key: Seq<char>) -> Option<Seq<Seq<char>>> {
    match field(document, key) {
        Some(list) => numeral_list(list),
        None => None,
    }
}

/// The whole numbers of the list that the member `key` of a document
/// holds.
pub open spec fn unsigneds_at(document: JsonView, key: Seq<char>) -> Option<Seq<u64>> {
    match field(document, key) {
        Some(list) => unsigned_list(list),
        None => None,
    }
}

/// The usage sample that a document stands for: the document is an object
/// that holds a whole number for each reading of memory, swap and traffic,
/// a list of numbers for the utilisation of the cores and a list of whole
/// numbers for their frequencies. Members that it holds besides are passed
/// over.
pub open spec fn machine_usage_of(document: JsonView) -> Option<MachineUsageView> {
    if unsigned_at(document, "totalMemory"@) is Some && unsigned_at(document, "usedMemory"@)
        is Some && unsigned_at(document, "totalSwap"@) is Some && unsigned_at(
        document,
        "usedSwap"@,
    ) is Some && numerals_at(document, "cpuUsage"@) is Some && unsigneds_at(
        document,
        "cpuFrequency"@,
    ) is Some && unsigned_at(document, "networkDown"@) is Some && unsigned_at(
        document,
        "networkUp"@,
    ) is Some {
        Some(
            MachineUsageView {
                total_memory: unsigned_at(document, "totalMemory"@)->Some_0,
                used_memory: unsigned_at(document, "usedMemory"@)->Some_0,
                total_swap: unsigned_at(document, "totalSwap"@)->Some_0,
                used_swap: unsigned_at(document, "usedSwap"@)->Some_0,
                cpu_usage: numerals_at(document, "cpuUsage"@)->Some_0,
                cpu_frequency: unsigneds_at(document, "cpuFrequency"@)->Some_0,
                network_down: unsigned_at(document, "networkDown"@)->Some_0,
                network_up: unsigned_at(document, "networkUp"@)->Some_0,
            },
        )
    } else {
        None
    }
}

/// A usage sample is read back from its document as it was.
pub proof fn lemma_machine_usage_round_trip(usage: MachineUsageView)
    ensures
        machine_usage_of(machine_usage_document(usage)) == Some(usage),
{
    reveal_with_fuel(member, 9);
    reveal_strlit("totalMemory");
    reveal_strlit("usedMemory");
    reveal_strlit("totalSwap");
    reveal_strlit("usedSwap");
    reveal_strlit("cpuUsage");
    reveal_strlit("cpuFrequency");
    reveal_strlit("networkDown");
    reveal_strlit("networkUp");
    let document = machine_usage_document(usage);
    assert("totalMemory"@.len() == 11 && "usedMemory"@.len() == 10 && "totalSwap"@.len() == 9);
    assert("usedSwap"@.len() == 8 && "cpuUsage"@.len() == 8 && "cpuFrequency"@.len() == 12);
    assert("networkDown"@.len() == 11 && "networkUp"@.len() == 9);
    assert("totalMemory"@[0] != "networkDown"@[0]);
    assert("totalSwap"@[0] != "networkUp"@[0]);
    assert("usedSwap"@[0] != "cpuUsage"@[0]);
    assert(unsigned_at(document, "totalMemory"@) == Some(usage.total_memory));
    assert(unsigned_at(document, "usedMemory"@) == Some(usage.used_memory));
    assert(unsigned_at(document, "totalSwap"@) == Some(usage.total_swap));
    assert(unsigned_at(document, "usedSwap"@) == Some(usage.used_swap));
    assert(field(document, "cpuUsage"@) == Some(numerals_document(usage.cpu_usage)));
    assert(field(document, "cpuFrequency"@) == Some(unsigneds_document(usage.cpu_frequency)));
    assert(unsigned_at(document, "networkDown"@) == Some(usage.network_down));
    assert(unsigned_at(document, "networkUp"@) == Some(usage.network_up));
    assert(numeral_list(numerals_document(usage.cpu_usage))->Some_0 =~= usage.cpu_usage);
    assert(unsigned_list(unsigneds_document(usage.cpu_frequency))->Some_0
        =~= usage.cpu_frequency);
}

impl MachineUsage {
    /// The document that stands for the sample.
    pub fn to_document(&self) -> (json: Json)
        ensures
            json@ == machine_usage_document(self@),
    {
        let cpu_usage = Json::from_numeral_list(&self.cpu_usage);
        let cpu_frequency = Json::from_unsigned_list(&self.cpu_frequency);
        proof {
            assert(cpu_usage@->List_0 =~= numerals_document(self@.cpu_usage)->List_0);
            assert(cpu_frequency@->List_0 =~= unsigneds_document(self@.cpu_frequency)->List_0);
        }
        let members: Vec<(String, Json)> = vec![
            ("totalMemory".to_owned(), Json::Number(JsonNumber::Unsigned(self.total_memory))),
            ("usedMemory".to_owned(), Json::Number(JsonNumber::Unsigned(self.used_memory))),
            ("totalSwap".to_owned(), Json::Number(JsonNumber::Unsigned(self.total_swap))),
            ("usedSwap".to_owned(), Json::Number(JsonNumber::Unsigned(self.used_swap))),
            ("cpuUsage".to_owned(), cpu_usage),
            ("cpuFrequency".to_owned(), cpu_frequency),
            ("networkDown".to_owned(), Json::Number(JsonNumber::Unsigned(self.network_down))),
            ("networkUp".to_owned(), Json::Number(JsonNumber::Unsigned(self.network_up))),
        ];
        let json = Json::Object(members);
        proof {
            lemma_view_unfolds(json);
            lemma_view_unfolds(members[0].1);
            lemma_view_unfolds(members[1].1);
            lemma_view_unfolds(members[2].1);
            lemma_view_unfolds(members[3].1);
            lemma_view_unfolds(members[6].1);
            lemma_view_unfolds(members[7].1);
            assert(json@->Object_0 =~= machine_usage_document(self@)->Object_0);
        }
        json
    }

    /// The usage sample that `document` stands for, if it stands for one.
    pub fn from_document(document: &Json) -> (found: Option<MachineUsage>)
        ensures
            match found {
                Some(usage) => machine_usage_of(document@) == Some(usage@),
                None => machine_usage_of(document@) is None,
            },
    {
        let total_memory = match document.get_unsigned("totalMemory") {
            Some(n) => n,
            None => { return None; },
        };
        let used_memory = match document.get_unsigned("usedMemory") {
            Some(n) => n,
            None => { return None; },
        };
        let total_swap = match document.get_unsigned("totalSwap") {
            Some(n) => n,
            None => { return None; },
        };
        let used_swap = match document.get_unsigned("usedSwap") {
            Some(n) => n,
            None => { return None; },
        };
        let cpu_usage = match document.get("cpuUsage") {
            Some(list) => match list.to_numeral_list() {
                Some(numerals) => numerals,
                None => { return None; },
            },
            None => { return None; },
        };
        let cpu_frequency = match document.get("cpuFrequency") {
            Some(list) => match list.to_unsigned_list() {
                Some(numbers) => numbers,
                None => { return None; },
            },
            None => { return None; },
        };
        let network_down = match document.get_unsigned("networkDown") {
            Some(n) => n,
            None => { return None; },
        };
        let network_up = match document.get_unsigned("networkUp") {
            Some(n) => n,
            None => { return None; },
        };
        Some(
            MachineUsage {
                total_memory,
                used_memory,
                total_swap,
                used_swap,
                cpu_usage,
                cpu_frequency,
                network_down,
                network_up,
            },
        )
    }
}

} // verus!
