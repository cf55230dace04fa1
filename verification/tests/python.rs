use hamid_mahdavi_client::python::{
    candidate_executables, detect, detect_in_known_paths, installer_url, known_python_paths,
    parse_version, PythonInfo, PYTHON_INSTALLER_URL_X64, PYTHON_INSTALLER_URL_X86,
};
use std::cell::RefCell;

#[test]
fn parses_python_v_output() {
    assert_eq!(parse_version("Python 3.11.9"), Some((3, 11, 9)));
    assert_eq!(parse_version("Python 3.10.4\n"), Some((3, 10, 4)));
    assert_eq!(parse_version("Python 3.12"), Some((3, 12, 0)));
}

#[test]
fn minimum_check() {
    let ok = PythonInfo {
        exe: String::new(),
        version: (3, 10, 0),
    };
    assert!(ok.meets_minimum());
    let too_old = PythonInfo {
        exe: String::new(),
        version: (3, 9, 18),
    };
    assert!(!too_old.meets_minimum());
}

#[test]
fn parse_version_edge_cases() {
    assert_eq!(parse_version("3.8.10"), Some((3, 8, 10)));
    assert_eq!(parse_version("  Python 3.11.9rc1  "), Some((3, 11, 9)));
    assert_eq!(parse_version("Python 3.13.0a1"), Some((3, 13, 0)));
    assert_eq!(parse_version("Python 3.11.x"), Some((3, 11, 0)));
    assert_eq!(parse_version("Python 3. 11 .2"), Some((3, 11, 2)));
    assert_eq!(parse_version("Python +3.+11"), Some((3, 11, 0)));
    assert_eq!(parse_version("Python 3"), None);
    assert_eq!(parse_version("Python"), None);
    assert_eq!(parse_version(""), None);
    assert_eq!(parse_version("Python x.11.2"), None);
    assert_eq!(parse_version("Python 3.-1.2"), None);
    assert_eq!(parse_version("Python 4294967296.1.0"), None);
    assert_eq!(parse_version("Python 4294967295.1.0"), Some((4294967295, 1, 0)));
    assert_eq!(parse_version("Python 3.11.99999999999"), Some((3, 11, 0)));
    assert_eq!(parse_version("python 3.11.2"), None);
    assert_eq!(parse_version("Python 3.11.2.5"), Some((3, 11, 2)));
    assert_eq!(parse_version("\u{3000}Python 3.12.1\u{2028}"), Some((3, 12, 1)));
}

#[test]
fn version_string_is_dotted() {
    let p = PythonInfo { exe: String::from("python.exe"), version: (3, 11, 9) };
    assert_eq!(p.version_string(), "3.11.9");
    let q = PythonInfo { exe: String::new(), version: (0, 0, 4294967295) };
    assert_eq!(q.version_string(), "0.0.4294967295");
}

#[test]
fn minimum_is_three_ten() {
    let v = |a, b| PythonInfo { exe: String::new(), version: (a, b, 0) }.meets_minimum();
    assert!(v(3, 10));
    assert!(v(3, 13));
    assert!(v(4, 0));
    assert!(!v(3, 9));
    assert!(!v(2, 99));
}

#[test]
fn installer_matches_pointer_width() {
    let expected = if usize::BITS == 64 { PYTHON_INSTALLER_URL_X64 } else { PYTHON_INSTALLER_URL_X86 };
    assert_eq!(installer_url(), expected);
    assert!(installer_url().starts_with("https://www.python.org/ftp/python/3.11.9/"));
}

#[test]
fn detect_takes_first_usable_and_stops() {
    let probed = RefCell::new(Vec::new());
    let cands = vec!["a".to_string(), "b".to_string(), "c".to_string(), "d".to_string()];
    let found = detect(&cands, |c: &String| {
        probed.borrow_mut().push(c.clone());
        match c.as_str() {
            "a" => None,
            "b" => Some(PythonInfo { exe: c.clone(), version: (3, 9, 1) }),
            "c" => Some(PythonInfo { exe: c.clone(), version: (3, 11, 2) }),
            _ => Some(PythonInfo { exe: c.clone(), version: (3, 12, 0) }),
        }
    });
    let found = found.unwrap();
    assert_eq!(found.exe, "c");
    assert_eq!(found.version, (3, 11, 2));
    assert_eq!(*probed.borrow(), vec!["a", "b", "c"]);
}

#[test]
fn detect_none_when_nothing_usable() {
    let cands = vec!["a".to_string(), "b".to_string()];
    let r = detect(&cands, |c: &String| Some(PythonInfo { exe: c.clone(), version: (2, 7, 18) }));
    assert!(r.is_none());
    let empty: Vec<String> = Vec::new();
    assert!(detect(&empty, |_c: &String| None).is_none());
}

#[test]
fn known_paths_in_order() {
    let p = known_python_paths();
    assert_eq!(
        p,
        vec![
            r"C:\Program Files\Python311\python.exe",
            r"C:\Program Files\Python310\python.exe",
            r"C:\Program Files (x86)\Python311\python.exe",
            r"C:\Program Files (x86)\Python310\python.exe",
        ]
    );
    let r = detect_in_known_paths(|c: &String| {
        if c.contains("(x86)") {
            Some(PythonInfo { exe: c.clone(), version: (3, 10, 0) })
        } else {
            None
        }
    });
    assert_eq!(r.unwrap().exe, r"C:\Program Files (x86)\Python311\python.exe");
}

#[test]
fn candidates_keep_order_of_names() {
    let asked = RefCell::new(Vec::new());
    let r = candidate_executables(|name: &str| {
        asked.borrow_mut().push(name.to_string());
        if name == "py.exe" {
            None
        } else {
            Some(format!(r"C:\bin\{name}"))
        }
    });
    assert_eq!(*asked.borrow(), vec!["py.exe", "python.exe", "python3.exe"]);
    assert_eq!(r, vec![r"C:\bin\python.exe", r"C:\bin\python3.exe"]);
}

#[test]
fn version_text_reads_back() {
    for v in [(3, 11, 9), (0, 0, 0), (10, 200, 3000), (4294967295, 4294967295, 4294967295)] {
        let p = PythonInfo { exe: String::new(), version: v };
        assert_eq!(parse_version(&p.version_string()), Some(v));
    }
}
