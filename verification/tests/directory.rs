use debuginfo::binaryview::{BinaryView, ViewModel};
use debuginfo::directory::{
    CustomDebugInfoParser, DebugInfoParser, ParserDirectory, RegistrationError,
};
use debuginfo::function::DebugFunctionInfo;
use debuginfo::registry::{DebugInfo, RegistryModel};
use debuginfo::types::Type;
use std::sync::atomic::{AtomicUsize, Ordering};
use std::sync::Arc;

/// A provider for views of one format. It counts its runs and reports one
/// type and one function per run.
struct FormatParser {
    format: &'static str,
    type_label: &'static str,
    function_label: &'static str,
    address: u64,
    runs: Arc<AtomicUsize>,
}

impl FormatParser {
    fn elf(runs: &Arc<AtomicUsize>) -> FormatParser {
        FormatParser {
            format: "ELF",
            type_label: "Point",
            function_label: "main",
            address: 0x1000,
            runs: runs.clone(),
        }
    }
}

impl CustomDebugInfoParser for FormatParser {
    // The two ghost functions are never run.
    fn accepts(&self, _view: ViewModel) -> bool {
        unreachable!()
    }

    fn parse_outcome(&self, _before: RegistryModel, _view: ViewModel, _after: RegistryModel) -> bool {
        unreachable!()
    }

    fn is_valid(&self, view: &BinaryView) -> bool {
        view.view_type() == self.format
    }

    fn parse_info(&self, debug_info: &mut DebugInfo, _view: &BinaryView) {
        self.runs.fetch_add(1, Ordering::SeqCst);
        debug_info.add_type(self.type_label, &Type::new(1));
        debug_info.add_function(DebugFunctionInfo::new(
            String::from(self.function_label),
            String::from(self.function_label),
            String::from(self.function_label),
            Type::new(1),
            self.address,
            Vec::new(),
        ));
    }
}

fn view(format: &str) -> BinaryView {
    BinaryView::new(String::from(format), vec![1, 2, 3])
}

#[test]
fn new_directory_lists_nothing() {
    let dir: ParserDirectory<FormatParser> = ParserDirectory::new();
    assert_eq!(dir.len(), 0);
    assert!(DebugInfoParser::list(&dir).is_empty());
    assert_eq!(DebugInfoParser::from_name(&dir, "elf-debug"), None);
}

#[test]
fn registered_provider_is_listed_under_its_name() {
    let runs = Arc::new(AtomicUsize::new(0));
    let mut dir = ParserDirectory::new();
    let parser = DebugInfoParser::register(&mut dir, "elf-debug", FormatParser::elf(&runs));
    assert_eq!(parser, Ok(DebugInfoParser { index: 0 }));
    let parser = parser.unwrap();
    let listed = DebugInfoParser::list(&dir);
    assert_eq!(listed, vec![parser]);
    assert_eq!(listed[0].name(&dir), "elf-debug");
    assert_eq!(DebugInfoParser::from_name(&dir, "elf-debug"), Some(parser));
    assert_eq!(DebugInfoParser::from_name(&dir, "elf"), None);
    assert_eq!(runs.load(Ordering::SeqCst), 0);
}

#[test]
fn providers_are_listed_in_registration_order() {
    let runs = Arc::new(AtomicUsize::new(0));
    let mut dir = ParserDirectory::new();
    for name in ["zeta", "alpha", "mid"] {
        assert!(DebugInfoParser::register(&mut dir, name, FormatParser::elf(&runs)).is_ok());
    }
    let names: Vec<String> =
        DebugInfoParser::list(&dir).iter().map(|parser| parser.name(&dir)).collect();
    assert_eq!(names, vec!["zeta", "alpha", "mid"]);
    assert_eq!(dir.len(), 3);
}

#[test]
fn register_turns_down_the_empty_name() {
    let runs = Arc::new(AtomicUsize::new(0));
    let mut dir = ParserDirectory::new();
    let result = DebugInfoParser::register(&mut dir, "", FormatParser::elf(&runs));
    assert_eq!(result, Err(RegistrationError::EmptyName));
    assert_eq!(dir.len(), 0);
}

#[test]
fn register_turns_down_a_taken_name() {
    let runs = Arc::new(AtomicUsize::new(0));
    let mut dir = ParserDirectory::new();
    assert!(DebugInfoParser::register(&mut dir, "elf-debug", FormatParser::elf(&runs)).is_ok());
    let second = FormatParser {
        format: "PE",
        type_label: "Other",
        function_label: "start",
        address: 0x2000,
        runs: runs.clone(),
    };
    let result = DebugInfoParser::register(&mut dir, "elf-debug", second);
    assert_eq!(result, Err(RegistrationError::NameTaken));
    assert_eq!(dir.len(), 1);
    let first = DebugInfoParser { index: 0 };
    assert!(first.is_valid_for_view(&dir, &view("ELF")));
    assert!(!first.is_valid_for_view(&dir, &view("PE")));
}

#[test]
fn enumeration_is_repeatable() {
    let runs = Arc::new(AtomicUsize::new(0));
    let mut dir = ParserDirectory::new();
    assert!(DebugInfoParser::register(&mut dir, "one", FormatParser::elf(&runs)).is_ok());
    assert!(DebugInfoParser::register(&mut dir, "two", FormatParser::elf(&runs)).is_ok());
    let first = DebugInfoParser::list(&dir);
    let second = DebugInfoParser::list(&dir);
    assert_eq!(first.len(), 2);
    assert_eq!(first, second);
    for (a, b) in first.iter().zip(second.iter()) {
        assert_eq!(a.name(&dir), b.name(&dir));
    }
}

#[test]
fn validity_is_the_same_when_asked_twice() {
    let runs = Arc::new(AtomicUsize::new(0));
    let mut dir = ParserDirectory::new();
    let parser =
        DebugInfoParser::register(&mut dir, "elf-debug", FormatParser::elf(&runs)).unwrap();
    let elf = view("ELF");
    let pe = view("PE");
    assert!(parser.is_valid_for_view(&dir, &elf));
    assert!(parser.is_valid_for_view(&dir, &elf));
    assert!(!parser.is_valid_for_view(&dir, &pe));
    assert!(!parser.is_valid_for_view(&dir, &pe));
    assert!(DebugInfoParser::register(&mut dir, "later", FormatParser::elf(&runs)).is_ok());
    assert!(parser.is_valid_for_view(&dir, &view("ELF")));
}

#[test]
fn matching_view_is_parsed_once() {
    let runs = Arc::new(AtomicUsize::new(0));
    let mut dir = ParserDirectory::new();
    assert!(DebugInfoParser::register(&mut dir, "elf-debug", FormatParser::elf(&runs)).is_ok());
    let info = dir.parse_debug_info(&view("ELF"));
    assert_eq!(runs.load(Ordering::SeqCst), 1);
    assert_eq!(info.type_count(), 1);
    assert_eq!(info.get_type("Point"), Some(Type::new(1)));
    assert_eq!(info.function_count(), 1);
    assert_eq!(info.function(0).short_name(), "main");
    assert_eq!(info.function(0).address(), 0x1000);
    assert!(info.function(0).parameters().is_empty());
}

#[test]
fn other_view_is_never_parsed() {
    let runs = Arc::new(AtomicUsize::new(0));
    let mut dir = ParserDirectory::new();
    assert!(DebugInfoParser::register(&mut dir, "elf-debug", FormatParser::elf(&runs)).is_ok());
    let pe = view("PE");
    assert!(dir.valid_parsers(&pe).is_empty());
    let info = dir.parse_debug_info(&pe);
    assert_eq!(runs.load(Ordering::SeqCst), 0);
    assert_eq!(info.type_count(), 0);
    assert_eq!(info.function_count(), 0);
}

#[test]
fn every_applicable_provider_contributes() {
    let runs = Arc::new(AtomicUsize::new(0));
    let mut dir = ParserDirectory::new();
    let provider = |format, type_label, function_label, address| FormatParser {
        format,
        type_label,
        function_label,
        address,
        runs: runs.clone(),
    };
    assert!(DebugInfoParser::register(&mut dir, "a", provider("ELF", "Point", "main", 0x1000))
        .is_ok());
    assert!(DebugInfoParser::register(&mut dir, "b", provider("PE", "Rect", "start", 0x2000))
        .is_ok());
    assert!(DebugInfoParser::register(&mut dir, "c", provider("ELF", "Line", "exit", 0x3000))
        .is_ok());
    let elf = view("ELF");
    assert_eq!(
        dir.valid_parsers(&elf),
        vec![DebugInfoParser { index: 0 }, DebugInfoParser { index: 2 }]
    );
    let info = dir.parse_debug_info(&elf);
    assert_eq!(runs.load(Ordering::SeqCst), 2);
    assert_eq!(info.type_count(), 2);
    assert_eq!(info.get_type("Rect"), None);
    assert_eq!(info.function_count(), 2);
    assert_eq!(info.function(0).short_name(), "main");
    assert_eq!(info.function(1).short_name(), "exit");
}

#[test]
fn parse_through_a_handle_adds_to_what_is_there() {
    let runs = Arc::new(AtomicUsize::new(0));
    let mut dir = ParserDirectory::new();
    let parser =
        DebugInfoParser::register(&mut dir, "elf-debug", FormatParser::elf(&runs)).unwrap();
    let mut info = DebugInfo::new();
    assert!(info.add_type("Earlier", &Type::new(9)));
    parser.parse_info(&dir, &mut info, &view("ELF"));
    assert_eq!(runs.load(Ordering::SeqCst), 1);
    assert_eq!(info.get_type("Earlier"), Some(Type::new(9)));
    assert_eq!(info.get_type("Point"), Some(Type::new(1)));
    assert_eq!(info.function_count(), 1);
}

#[test]
fn view_keeps_its_format_and_bytes() {
    let elf = BinaryView::new(String::from("ELF"), vec![0x7f, 0x45, 0x4c, 0x46]);
    assert_eq!(elf.view_type(), "ELF");
    assert_eq!(elf.contents(), &vec![0x7f, 0x45, 0x4c, 0x46]);
}

/// A provider for every view, which reports nothing.
struct Silent;

impl CustomDebugInfoParser for Silent {
    // The two ghost functions are never run.
    fn accepts(&self, _view: ViewModel) -> bool {
        unreachable!()
    }

    fn parse_outcome(&self, _before: RegistryModel, _view: ViewModel, _after: RegistryModel) -> bool {
        unreachable!()
    }

    fn is_valid(&self, _view: &BinaryView) -> bool {
        true
    }

    fn parse_info(&self, _debug_info: &mut DebugInfo, _view: &BinaryView) {}
}

#[test]
fn boxed_providers_of_different_kinds_share_a_directory() {
    let runs = Arc::new(AtomicUsize::new(0));
    let mut dir: ParserDirectory<Box<dyn CustomDebugInfoParser>> = ParserDirectory::new();
    let silent = DebugInfoParser::register(&mut dir, "silent", Box::new(Silent)).unwrap();
    let elf =
        DebugInfoParser::register(&mut dir, "elf-debug", Box::new(FormatParser::elf(&runs)))
            .unwrap();
    let pe = view("PE");
    assert!(silent.is_valid_for_view(&dir, &pe));
    assert!(!elf.is_valid_for_view(&dir, &pe));
    assert_eq!(dir.valid_parsers(&pe), vec![silent]);
    let info = dir.parse_debug_info(&pe);
    assert_eq!(runs.load(Ordering::SeqCst), 0);
    assert_eq!(info.type_count(), 0);
    let info = dir.parse_debug_info(&view("ELF"));
    assert_eq!(runs.load(Ordering::SeqCst), 1);
    assert_eq!(info.type_count(), 1);
    assert_eq!(info.function_count(), 1);
}

#[test]
fn provider_that_finds_nothing_contributes_nothing() {
    let mut dir = ParserDirectory::new();
    let parser = DebugInfoParser::register(&mut dir, "silent", Silent).unwrap();
    assert!(parser.is_valid_for_view(&dir, &view("ELF")));
    let info = dir.parse_debug_info(&view("ELF"));
    assert_eq!(info.type_count(), 0);
    assert_eq!(info.function_count(), 0);
}
