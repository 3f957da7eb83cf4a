use rorm_lib::alias::number_as_az;

#[test]
fn single_letters() {
    assert_eq!(number_as_az(0), "a");
    assert_eq!(number_as_az(1), "b");
    assert_eq!(number_as_az(25), "z");
}

#[test]
fn least_significant_digit_first() {
    assert_eq!(number_as_az(27), "bb");
    assert_eq!(number_as_az(28), "cb");
    assert_eq!(number_as_az(53), "bc");
}

#[test]
fn aliases_are_distinct() {
    let numbers: Vec<usize> = (0..200).filter(|n| *n != 26).collect();
    let aliases: Vec<String> = numbers.iter().map(|n| number_as_az(*n)).collect();
    for i in 0..aliases.len() {
        for j in 0..i {
            assert_ne!(aliases[i], aliases[j]);
        }
    }
}
