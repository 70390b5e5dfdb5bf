use viscous::error::Error;
use viscous::title::{
    decode, drawable, encode, first_drawable, show_title, supported, title_messages, Title, TitleDisplay,
    TitleDisplayInquiry, TitleSet, CHARACTERS, LENGTH, SPACE,
};

#[test]
fn a_title_is_encoded_in_the_cameras_own_character_set() {
    let title = Title::new("HYMN 123");

    assert_eq!(
        &title.0[..8],
        // H Y M N _ 1 2 3
        &[0x07, 0x18, 0x0C, 0x0D, SPACE, 0x1E, 0x1F, 0x20]
    );
}

#[test]
fn a_title_is_padded_out_to_the_length_the_camera_redraws() {
    let title = Title::new("A");

    assert_eq!(title.0.len(), LENGTH);
    assert!(title.0[1..].iter().all(|code| *code == SPACE));
    assert_eq!(title.text(), "A");
}

#[test]
fn a_title_longer_than_the_camera_can_show_is_cut_to_fit() {
    let title = Title::new("THE WHOLE CONGREGATION STANDING");

    assert_eq!(title.text(), "THE WHOLE CONGREGATI");
}

#[test]
fn lowercase_is_shown_in_the_uppercase_the_camera_has() {
    assert_eq!(Title::new("Chorister").text(), "CHORISTER");
}

#[test]
fn a_character_the_camera_cannot_draw_becomes_a_space() {
    assert_eq!(Title::new("A\u{2603}B").text(), "A B");
}

#[test]
fn the_characters_offered_for_measuring_are_the_ones_the_camera_draws() {
    for character in drawable() {
        assert_eq!(
            decode(&[encode(character)]),
            character.to_string(),
            "{character} is offered as one the camera draws"
        );
    }

    // Every code but the Deutsche Mark sign, which stands for nothing that
    // could be typed and so is nothing to measure.
    assert_eq!(drawable().len(), CHARACTERS.len() - 1);
}

#[test]
fn decode_shows_a_code_the_camera_has_no_character_for() {
    assert_eq!(decode(&[0x00, 0x7F]), "A\u{fffd}");
}

#[test]
fn a_sharp_s_is_drawn_as_the_one_the_camera_has() {
    assert_eq!(encode('ß'), 0x3B);
    assert_eq!(Title::new("straße").text(), "STRAßE");
}

#[test]
fn an_accent_is_uppercased_too() {
    assert_eq!(encode('é'), encode('É'));
    assert_eq!(encode('œ'), 0x36);
}

#[test]
fn a_character_whose_uppercase_is_several_takes_the_first_that_can_be_drawn() {
    // The uppercase of U+FB01 is "FI".
    assert_eq!(encode('\u{fb01}'), encode('F'));
}

#[test]
fn nothing_maps_to_the_code_that_stands_for_nothing() {
    assert_eq!(encode('\u{fffd}'), SPACE);
}

#[test]
fn a_title_reads_back_as_it_was_typed() {
    for text in ["PODIUM", "HYMN 123", "ÀÉÎ".trim_end_matches('Î'), "A & B: \"C\""] {
        assert_eq!(Title::new(text).text(), text);
    }
}

#[test]
fn retyping_a_title_gives_the_same_title() {
    for text in ["Chorister", "A\u{2603}B", "  leading", "trailing  ", ""] {
        let title = Title::new(text);
        assert_eq!(Title::new(&title.text()), title);
    }
}

#[test]
fn every_code_is_the_code_of_what_it_draws() {
    for code in 0..CHARACTERS.len() as u8 {
        if code != 0x44 {
            assert_eq!(encode(CHARACTERS[code as usize]), code);
        }
    }
}

#[test]
fn titles_differ_where_any_code_does() {
    assert_eq!(Title::new("podium"), Title::new("PODIUM"));
    assert_ne!(Title::new("PODIUM"), Title::new("PODIUM."));
}

#[test]
fn a_title_is_sent_as_its_appearance_and_two_halves() {
    let messages = title_messages(Title::new("PODIUM AND CHOIR"));

    assert_eq!(messages.len(), 3);
    assert_eq!(messages[0].part, 0x00);
    assert_eq!(messages[0].payload, [0x0A, 0, 0, 0, 0, 0, 0, 0, 0, 0]);
    assert_eq!(messages[1].part, 0x01);
    assert_eq!(decode(&messages[1].payload), "PODIUM AND");
    assert_eq!(messages[2].part, 0x02);
    assert_eq!(decode(&messages[2].payload), " CHOIR    ");
}

#[test]
fn the_title_messages_have_the_cameras_own_layout() {
    let mut buffer = [0xAA; 18];
    let set = TitleSet {
        part: 0x01,
        payload: [1, 2, 3, 4, 5, 6, 7, 8, 9, 10],
    };
    assert!(matches!(set.write_into(1, &mut buffer), Ok(16)));
    assert_eq!(
        buffer,
        [
            0x81, 0x01, 0x04, 0x73, 0x01, 1, 2, 3, 4, 5, 6, 7, 8, 9, 10, 0xFF, 0xAA, 0xAA
        ]
    );

    let mut buffer = [0xAA; 6];
    assert!(matches!(TitleDisplay(0x02).write_into(2, &mut buffer), Ok(6)));
    assert_eq!(buffer, [0x82, 0x01, 0x04, 0x74, 0x02, 0xFF]);

    let mut buffer = [0xAA; 6];
    assert!(matches!(TitleDisplayInquiry.write_into(8, &mut buffer), Ok(5)));
    assert_eq!(buffer, [0x88, 0x09, 0x04, 0x74, 0xFF, 0xAA]);
}

#[test]
fn a_buffer_that_cannot_hold_a_title_message_is_left_alone() {
    let mut buffer = [0xAA; 15];
    let set = TitleSet {
        part: 0x01,
        payload: [0; 10],
    };
    let written = set.write_into(1, &mut buffer);

    assert!(matches!(
        written,
        Err(Error::BufferTooSmall {
            required: 16,
            actual: 15
        })
    ));
    assert_eq!(buffer, [0xAA; 15]);

    let mut short = [0; 5];
    assert!(TitleDisplay(0x03).write_into(1, &mut short).is_err());
    let mut shorter = [0; 4];
    assert!(TitleDisplayInquiry.write_into(1, &mut shorter).is_err());
}

#[test]
fn showing_and_hiding_are_one_message_with_two_payloads() {
    assert_eq!(show_title(true), TitleDisplay(0x02));
    assert_eq!(show_title(false), TitleDisplay(0x03));
}

#[test]
fn only_a_syntax_error_means_there_are_no_titles() {
    assert!(supported(&Ok(())));
    assert!(!supported(&Err(Error::SyntaxError)));
    assert!(supported(&Err(Error::Other("Command is not executable".to_string()))));
}

#[test]
fn the_first_character_the_camera_can_draw_stands_for_the_rest() {
    assert_eq!(first_drawable(&['F', 'I']), encode('F'));
    assert_eq!(first_drawable(&['\u{fffd}', 'B', 'A']), encode('B'));
    assert_eq!(first_drawable(&['\u{fffd}']), SPACE);
    assert_eq!(first_drawable(&[]), SPACE);
}
