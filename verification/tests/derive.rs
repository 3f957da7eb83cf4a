use rorm_lib::derive::{decode_choice, decoder_ident, value_space_impl_ident, value_space_marker_ident};

#[test]
fn generated_names() {
    assert_eq!(decoder_ident("UserRole"), "__UserRole_Decoder");
    assert_eq!(value_space_impl_ident("NewUser"), "__NewUser_ValueSpaceImpl");
    assert_eq!(value_space_marker_ident("NewUser"), "__NewUser_ValueSpaceImplMarker");
}

#[test]
fn choices_decode_to_their_variant() {
    let variants = ["User", "Moderator", "Admin"];
    for (i, v) in variants.iter().enumerate() {
        assert_eq!(decode_choice(&variants, "UserRole", v), Ok(i));
    }
}

#[test]
fn unknown_choice_is_an_error() {
    assert_eq!(
        decode_choice(&["A", "B"], "Letter", "C"),
        Err("Invalid value 'C' for enum 'Letter'".to_string())
    );
}
