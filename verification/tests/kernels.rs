use std::collections::VecDeque;

use zkbench::fastfib::{fast_matexp, fastfib, matmul, Matrix2x2};
use zkbench::fib::{fib, fib_pair};
use zkbench::lcs::{construct, lcs_dyn};
use zkbench::lcs2::{calculate_lcs_dyn, lcs2};
use zkbench::sum::{naturals_below, sum, sum_below};

const FIB_MATRIX: Matrix2x2 = [0, 1, 1, 1];

fn is_subsequence(s: &str, t: &str) -> bool {
    let mut rest = t.chars();
    s.chars().all(|c| rest.any(|d| d == c))
}

#[test]
fn fib_base_values() {
    assert_eq!(fib(0), 0);
    assert_eq!(fib(1), 1);
    assert_eq!(fib(2), 1);
    assert_eq!(fib(10), 55);
}

#[test]
fn fib_pair_is_a_number_and_its_successor() {
    assert_eq!(fib_pair(0), (0, 1));
    assert_eq!(fib_pair(1), (1, 1));
    assert_eq!(fib_pair(10), (55, 89));
    assert_eq!(fib_pair(92), (7540113804746346429, 12200160415121876738));
    assert_eq!(fib_pair(93), (12200160415121876738, 1293530146158671551));
    for n in [0u64, 5, 93, 94, 1000] {
        assert_eq!(fib_pair(n), (fib(n), fib(n + 1)));
    }
}

#[test]
fn fib_last_value_that_fits() {
    assert_eq!(fib(93), 12200160415121876738);
}

#[test]
fn fib_wraps_modulo_two_to_the_64() {
    assert_eq!(fib(94), 1293530146158671551);
    assert_eq!(fib(186), 14458561666841997560);
    assert_eq!(fib(1000), 817770325994397771);
    assert_eq!(fib(100000), 2754320626097736315);
}

#[test]
fn fastfib_agrees_with_fib_below_wraparound() {
    for n in 0..=93u64 {
        assert_eq!(fib(n), fastfib(n), "n = {}", n);
    }
}

#[test]
fn fastfib_agrees_with_fib_beyond_wraparound() {
    for n in [93u64, 94, 95, 186, 187, 1000, 100000] {
        assert_eq!(fib(n), fastfib(n), "n = {}", n);
    }
}

#[test]
fn fastfib_base_values() {
    assert_eq!(fastfib(0), 0);
    assert_eq!(fastfib(1), 1);
    assert_eq!(fastfib(10), 55);
    assert_eq!(fastfib(94), 1293530146158671551);
}

#[test]
fn fastfib_at_the_largest_arguments() {
    assert_eq!(fastfib(u64::MAX - 1), 16044305833753766745);
    assert_eq!(fastfib(u64::MAX), 800812746651928290);
}

#[test]
fn loop_form_agrees_with_recursion() {
    for n in [0u64, 1, 2, 10, 93, 94, 186, 100000, u64::MAX - 1, u64::MAX] {
        assert_eq!(zkbench::fastfib_iter::fib(n), fastfib(n), "n = {}", n);
    }
    let base: Matrix2x2 = [1, 2, 3, 4];
    for e in [0u64, 1, 2, 3, 10, 63, 64, 1 << 40, u64::MAX] {
        assert_eq!(zkbench::fastfib_iter::fast_matexp(base, e), fast_matexp(base, e), "e = {}", e);
    }
}

#[test]
fn matmul_is_the_matrix_product() {
    assert_eq!(matmul([1, 2, 3, 4], [5, 6, 7, 8]), [19, 22, 43, 50]);
    assert_eq!(matmul([1, 0, 0, 1], [5, 6, 7, 8]), [5, 6, 7, 8]);
    assert_eq!(matmul([5, 6, 7, 8], [1, 0, 0, 1]), [5, 6, 7, 8]);
    assert_eq!(matmul(FIB_MATRIX, FIB_MATRIX), [1, 1, 1, 2]);
}

#[test]
fn matmul_wraps() {
    assert_eq!(
        matmul([u64::MAX, 2, 3, 1 << 63], [2, 4, u64::MAX, 7]),
        [18446744073709551612, 10, 9223372036854775814, 9223372036854775820]
    );
}

#[test]
fn fast_matexp_values() {
    assert_eq!(fast_matexp([1, 2, 3, 4], 0), [1, 0, 0, 1]);
    assert_eq!(fast_matexp([1, 2, 3, 4], 1), [1, 2, 3, 4]);
    assert_eq!(fast_matexp([1, 2, 3, 4], 10), [4783807, 6972050, 10458075, 15241882]);
    assert_eq!(fast_matexp([1, 1, 0, 1], 5), [1, 5, 0, 1]);
    assert_eq!(
        fast_matexp([(1 << 63) + 5, 1 << 40, 3, u64::MAX], 3),
        [9223401723668725885, 23089744183296, 9223381932459425855, 9895604649983]
    );
    assert_eq!(fast_matexp(FIB_MATRIX, 11), [55, 89, 89, 144]);
}

#[test]
fn lcs_of_the_textbook_pair() {
    let found = lcs_dyn("ABCBDAB", "BDCABA");
    assert_eq!(found.chars().count(), 4);
    assert!(is_subsequence(&found, "ABCBDAB"));
    assert!(is_subsequence(&found, "BDCABA"));
    assert_eq!(found, "BDAB");
}

#[test]
fn lcs_by_table_of_subsequences_of_the_textbook_pair() {
    let found = zkbench::lcs2::lcs_dyn("ABCBDAB", "BDCABA");
    assert_eq!(found.chars().count(), 4);
    assert!(is_subsequence(&found, "ABCBDAB"));
    assert!(is_subsequence(&found, "BDCABA"));
    assert_eq!(found, "BCBA");
}

#[test]
fn lcs_tie_goes_against_the_second_sequence() {
    assert_eq!(lcs_dyn("ab", "ba"), "b");
    assert_eq!(zkbench::lcs2::lcs_dyn("ab", "ba"), "a");
}

#[test]
fn lcs_edge_cases() {
    for f in [lcs_dyn as fn(&str, &str) -> String, zkbench::lcs2::lcs_dyn] {
        assert_eq!(f("", ""), "");
        assert_eq!(f("abc", ""), "");
        assert_eq!(f("", "abc"), "");
        assert_eq!(f("abc", "abc"), "abc");
        assert_eq!(f("abc", "xyz"), "");
        assert_eq!(f("AGGTAB", "GXTXAYB"), "GTAB");
        assert_eq!(f("XMJYAUZ", "MZJAWXU"), "MJAU");
    }
}

#[test]
fn lcs_counts_characters_not_bytes() {
    assert_eq!(lcs_dyn("héllo wörld", "hello world"), "hllo wrld");
    assert_eq!(zkbench::lcs2::lcs_dyn("héllo wörld", "hello world"), "hllo wrld");
    assert_eq!(lcs_dyn("日本語", "本語日"), "本語");
    assert_eq!(zkbench::lcs2::lcs_dyn("日本語", "本語日"), "本語");
}

#[test]
fn lcs_of_the_default_texts() {
    let a = zkbench::config::DEFAULT_LCS_ARG1;
    let b = zkbench::config::DEFAULT_LCS_ARG2;
    let first = lcs_dyn(a, b);
    let second = zkbench::lcs2::lcs_dyn(a, b);
    assert_eq!(first, "here mst beome nay o e eoe to the ti s  h connct et nor");
    assert_eq!(second, "he  e oe of a tt ee a e oe to the ti s ch connct et noe");
    assert_eq!(first.chars().count(), 55);
    assert_eq!(second.chars().count(), 55);
    for found in [&first, &second] {
        assert!(is_subsequence(found, a));
        assert!(is_subsequence(found, b));
    }
}

#[test]
fn lcs2_takes_a_pair() {
    assert_eq!(lcs2(("ABCBDAB".to_string(), "BDCABA".to_string())), "BCBA");
}

#[test]
fn construct_walks_the_table_it_is_given() {
    let xs: Vec<char> = "ABCBDAB".chars().collect();
    let ys: Vec<char> = "BDCABA".chars().collect();
    let rows: [[usize; 7]; 8] = [
        [0, 0, 0, 0, 0, 0, 0],
        [0, 0, 0, 0, 1, 1, 1],
        [0, 1, 1, 1, 1, 2, 2],
        [0, 1, 1, 2, 2, 2, 2],
        [0, 1, 1, 2, 2, 3, 3],
        [0, 1, 2, 2, 2, 3, 3],
        [0, 1, 2, 2, 3, 3, 4],
        [0, 1, 2, 2, 3, 4, 4],
    ];
    let tab: Vec<VecDeque<usize>> = rows.iter().map(|r| r.iter().copied().collect()).collect();
    assert_eq!(construct(&xs, &ys, &tab), "BDAB");
}

#[test]
fn construct_follows_the_larger_neighbour() {
    let xs: Vec<char> = "ab".chars().collect();
    let ys: Vec<char> = "ba".chars().collect();
    // The cell above the last one is larger than the cell to its left: the
    // walk drops the last character of the first sequence.
    let up: Vec<VecDeque<usize>> =
        vec![VecDeque::from(vec![0, 0, 0]), VecDeque::from(vec![0, 0, 1]), VecDeque::from(vec![0, 0, 0])];
    assert_eq!(construct(&xs, &ys, &up), "a");
    // Equal neighbours: the walk drops the last character of the second.
    let tie: Vec<VecDeque<usize>> =
        vec![VecDeque::from(vec![0, 0, 0]), VecDeque::from(vec![0, 0, 1]), VecDeque::from(vec![0, 1, 1])];
    assert_eq!(construct(&xs, &ys, &tie), "b");
}

#[test]
fn construct_on_empty_inputs() {
    let tab: Vec<VecDeque<usize>> = vec![VecDeque::from(vec![0])];
    assert_eq!(construct(&[], &[], &tab), "");
}

#[test]
fn calculate_lcs_dyn_fills_every_cell() {
    let s1: Vec<char> = "ab".chars().collect();
    let s2: Vec<char> = "ba".chars().collect();
    let table = calculate_lcs_dyn(&s1, &s2, 2, 2);
    let expected: Vec<Vec<String>> = vec![
        vec!["".to_string(), "".to_string(), "".to_string()],
        vec!["".to_string(), "".to_string(), "a".to_string()],
        vec!["".to_string(), "b".to_string(), "a".to_string()],
    ];
    assert_eq!(table, expected);
}

#[test]
fn calculate_lcs_dyn_on_prefixes() {
    let s1: Vec<char> = "ABCBDAB".chars().collect();
    let s2: Vec<char> = "BDCABA".chars().collect();
    let table = calculate_lcs_dyn(&s1, &s2, 3, 4);
    assert_eq!(table.len(), 4);
    assert!(table.iter().all(|row| row.len() == 5));
    assert_eq!(table[3][4], zkbench::lcs2::lcs_dyn("ABC", "BDCA"));
    assert_eq!(table[0][4], "");
}

#[test]
fn calculate_lcs_dyn_with_a_length_of_zero_looks_at_no_character() {
    let s1: Vec<char> = "ab".chars().collect();
    let table = calculate_lcs_dyn(&s1, &[], 5, 0);
    assert_eq!(table, vec![vec!["".to_string()]; 6]);
    let table = calculate_lcs_dyn(&[], &s1, 0, 3);
    assert_eq!(table, vec![vec!["".to_string(); 4]]);
    let table = calculate_lcs_dyn(&[], &[], 0, 0);
    assert_eq!(table, vec![vec!["".to_string()]]);
}

#[test]
fn sum_of_the_default_input() {
    let input: Vec<u64> = (0..100000).collect();
    assert_eq!(sum(input), 4999950000);
}

#[test]
fn sum_closed_form() {
    for n in [0u64, 1, 2, 3, 10, 1000, 10000, 100000, 1000000] {
        let input: Vec<u64> = (0..n).collect();
        let expected = ((n as u128 * n.wrapping_sub(1) as u128 / 2) % (1u128 << 64)) as u64;
        let expected = if n == 0 { 0 } else { expected };
        assert_eq!(sum(input), expected, "n = {}", n);
        assert_eq!(sum_below(n), expected, "n = {}", n);
    }
    assert_eq!(sum_below(10000), 49995000);
}

#[test]
fn sum_wraps() {
    assert_eq!(sum(vec![u64::MAX, 2]), 1);
    assert_eq!(sum(vec![u64::MAX, 1]), 0);
    assert_eq!(sum(vec![1 << 63, 1 << 63, 7]), 7);
}

#[test]
fn sum_of_nothing_and_of_one() {
    assert_eq!(sum(vec![]), 0);
    assert_eq!(sum(vec![42]), 42);
}

#[test]
fn naturals_below_counts_up_from_zero() {
    assert_eq!(naturals_below(0), Vec::<u64>::new());
    assert_eq!(naturals_below(5), vec![0, 1, 2, 3, 4]);
    assert_eq!(sum(naturals_below(100000)), sum_below(100000));
}
