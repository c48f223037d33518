use zkbench::progress::{progress_line, write_call_of_one, write_call_of_two};
use zkbench::workload::{Output, Workload};

#[test]
fn lines_for_numbers() {
    assert_eq!(progress_line(&Workload::Fib { n: 10 }, &Output::Number(55)), "fib(10) = 55");
    assert_eq!(
        progress_line(&Workload::FastFib { n: u64::MAX - 1 }, &Output::Number(16044305833753766745)),
        "fastfib(18446744073709551614) = 16044305833753766745"
    );
    assert_eq!(
        progress_line(&Workload::Sum { n: 100000 }, &Output::Number(4999950000)),
        "sum(0..100000) = 4999950000"
    );
}

#[test]
fn lines_for_texts_quote_the_arguments() {
    let workload = Workload::Lcs { a: "ABCBDAB".to_string(), b: "BDCABA".to_string() };
    assert_eq!(
        progress_line(&workload, &Output::Text("BDAB".to_string())),
        "lcs(\"ABCBDAB\", \"BDCABA\") = BDAB"
    );
    let workload = Workload::Lcs2 { a: "ABCBDAB".to_string(), b: "BDCABA".to_string() };
    assert_eq!(
        progress_line(&workload, &Output::Text("BCBA".to_string())),
        "lcs2(\"ABCBDAB\", \"BDCABA\") = BCBA"
    );
}

#[test]
fn quoting_escapes_as_debug_does() {
    let a = "say \"hi\"\n";
    let b = "back\\slash there's";
    let workload = Workload::Lcs { a: a.to_string(), b: b.to_string() };
    assert_eq!(
        progress_line(&workload, &Output::Text("s".to_string())),
        format!("lcs({:?}, {:?}) = s", a, b)
    );
    assert_eq!(
        progress_line(&workload, &Output::Text("s".to_string())),
        "lcs(\"say \\\"hi\\\"\\n\", \"back\\\\slash there's\") = s"
    );
}

#[test]
fn the_output_is_shown_as_it_is() {
    let workload = Workload::Lcs { a: "".to_string(), b: "".to_string() };
    assert_eq!(progress_line(&workload, &Output::Text("".to_string())), "lcs(\"\", \"\") = ");
    assert_eq!(progress_line(&workload, &Output::Text("a\"b".to_string())), "lcs(\"\", \"\") = a\"b");
    assert_eq!(progress_line(&workload, &Output::Number(3)), "lcs(\"\", \"\") = 3");
    assert_eq!(progress_line(&Workload::Fib { n: 1 }, &Output::Text("one".to_string())), "fib(1) = one");
}

#[test]
fn calls() {
    assert_eq!(write_call_of_one("f", "x"), "f(x)");
    assert_eq!(write_call_of_one("", ""), "()");
    assert_eq!(write_call_of_two("g", "x", "y"), "g(x, y)");
    assert_eq!(write_call_of_two("lcs", "\"a\"", "\"b\""), "lcs(\"a\", \"b\")");
}
