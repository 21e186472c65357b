use spa::audio::adpcm::{step_size, ADPCMGenerator};
use spa::audio::capture::{AudioCaptureUnit, CaptureFIFO, CAPTURE_FORMAT, CAPTURE_ONE_SHOT, CAPTURE_START};
use spa::audio::channel::{shr_signed, AudioChannel, ChannelType, SAMPLE_MAX, SAMPLE_MIN};
use spa::audio::fifo::AudioFIFO;
use spa::audio::noise::NoiseGenerator;
use spa::audio::psg::SquareGenerator;
use spa::audio::DSAudio;

const PCM16_ONE_SHOT_START: u32 = (1 << 31) | (1 << 29) | (2 << 27);

#[test]
fn signed_shift_floors() {
    assert_eq!(shr_signed(7, 2), 3);
    assert_eq!(shr_signed(-7, 2), -4);
    assert_eq!(shr_signed(-16, 16), -1);
    assert_eq!(shr_signed(0, 4), 0);
}

#[test]
fn adpcm_step_table_ends() {
    assert_eq!(step_size(0), 7);
    assert_eq!(step_size(8), 16);
    assert_eq!(step_size(88), 32767);
}

#[test]
fn adpcm_decoding() {
    let mut gen = ADPCMGenerator::new();
    assert!(gen.needs_header());
    assert_eq!(gen.set_header(0x0000_0000), 0);
    assert!(!gen.needs_header());
    assert_eq!(gen.generate_sample(7), 6);
    assert_eq!(gen.current_index, 8);
    assert_eq!(gen.generate_sample(8), 5);
    assert_eq!(gen.current_index, 7);
    // A header index above the table is clamped.
    assert_eq!(gen.set_header(0x007F_8000), -0x8000);
    assert_eq!(gen.current_index, 88);
    assert_eq!(gen.generate_sample(0xF), -0x8000);
    gen.store_loop_values();
    gen.generate_sample(7);
    gen.restore_loop_values();
    assert_eq!(gen.current_value, -0x8000);
    gen.reset();
    assert!(gen.needs_header());
}

#[test]
fn audio_fifo_samples_in_order() {
    let mut fifo = AudioFIFO::new();
    fifo.push(0x1234_5678);
    fifo.push(0x9ABC_DEF0);
    assert_eq!(fifo.len(), 2);
    assert_eq!(fifo.sample_pcm_16(), 0x5678);
    assert_eq!(fifo.sample_pcm_16(), 0x1234);
    assert_eq!(fifo.len(), 1);
    assert_eq!(fifo.sample_pcm_8(), 0xF0u8 as i8);
    assert_eq!(fifo.sample_adpcm(), 0xE);
    assert_eq!(fifo.sample_adpcm(), 0xD);
    fifo.clear();
    assert_eq!(fifo.len(), 0);
    assert_eq!(fifo.sample_pcm_8(), 0);
    assert_eq!(fifo.get_adpcm_header(), None);
    fifo.push(0xAABB_CCDD);
    assert_eq!(fifo.get_adpcm_header(), Some(0xAABB_CCDD));
}

#[test]
fn noise_and_square_generators() {
    let mut noise = NoiseGenerator::new();
    assert_eq!(noise.generate_sample(), SAMPLE_MIN);
    assert_eq!(noise.lfsr_counter, (0x7FFF / 2) ^ 0x6000);
    let mut square = SquareGenerator::new();
    square.reset(3);
    let wave: Vec<i16> = (0..8).map(|_| square.generate_sample()).collect();
    assert_eq!(&wave[..4], &[SAMPLE_MAX; 4]);
    assert_eq!(&wave[4..], &[SAMPLE_MIN; 4]);
}

#[test]
fn pcm16_channel_plays_fifo_words() {
    let mut ch = AudioChannel::new(ChannelType::PCM, 1);
    ch.write_timer(0xFFFF);
    ch.write_src_addr(0x0200_0000);
    ch.write_sound_len(2);
    ch.write_control(PCM16_ONE_SHOT_START | (64 << 16) | 127);
    assert_eq!(ch.get_sample(), Some((0, 0)));
    // Empty FIFO: the timer overflow asks for data.
    assert_eq!(ch.clock(1), 1);
    assert_eq!(ch.get_dma_addr(), 0x0200_0000);
    ch.write_fifo(0x1234_5678);
    assert_eq!(ch.clock(0xFFFF), 0);
    assert_eq!(ch.clock(1), 1);
    assert_eq!(ch.get_sample(), Some((10809, 10981)));
    ch.clock(1);
    assert_eq!(ch.get_sample(), Some((2275, 2311)));
}

#[test]
fn sound_registers_and_mixing() {
    let mut audio = DSAudio::new();
    assert_eq!(audio.read_word(0x0400_0504), 0x200);
    audio.write_word(0x0400_0500, 0x8000 | 0x7F);
    assert_eq!(audio.read_word(0x0400_0500), 0x807F);
    audio.write_word(0x0400_0408, 0xFFFF);
    audio.write_word(0x0400_0404, 0x0200_0000);
    audio.write_word(0x0400_040C, 2);
    audio.write_word(0x0400_0400, PCM16_ONE_SHOT_START | (64 << 16) | 127);
    assert_eq!(audio.read_word(0x0400_0408), 0xFFFF);
    assert!(audio.channels_aligned());
    let (dma, c0, c1, sample) = audio.clock(1);
    assert_eq!(dma & 1, 1);
    assert!(!c0 && !c1);
    assert_eq!(sample, None);
    assert_eq!(audio.get_dma_addr(0), 0x0200_0000);
    audio.write_fifo(0, 0x1234_5678);
    let (_, _, _, sample) = audio.clock(0xFFFF);
    assert_eq!(sample, Some(Some((0x200, 0x200))));
    let (dma, _, _, sample) = audio.clock(1);
    assert_eq!(dma, 1);
    assert_eq!(sample, Some(Some((679, 682))));
}

#[test]
fn sound_off_gives_no_levels() {
    let mut audio = DSAudio::new();
    let (_, _, _, sample) = audio.clock(512);
    assert_eq!(sample, Some(None));
}

#[test]
fn capture_unit_fills_and_restarts() {
    let mut cap = AudioCaptureUnit::new();
    cap.write_dest(0x0230_0003);
    cap.write_len(1);
    cap.write_control(CAPTURE_START | CAPTURE_FORMAT);
    assert!(!cap.write_fifo_pcm_8(1));
    assert!(!cap.write_fifo_pcm_8(2));
    assert!(!cap.write_fifo_pcm_8(3));
    assert!(cap.write_fifo_pcm_8(-1));
    assert_eq!(cap.get_dma_addr(), 0x0230_0000);
    assert_eq!(cap.read_fifo(), 0xFF03_0201);
    assert_ne!(cap.control & CAPTURE_START, 0);
    cap.write_control(CAPTURE_START | CAPTURE_ONE_SHOT);
    assert!(!cap.write_fifo_pcm_16(0x1234));
    assert!(cap.write_fifo_pcm_16(-2));
    assert_eq!(cap.control & CAPTURE_START, 0);
    assert_eq!(cap.read_fifo(), 0xFFFE_1234);
}

#[test]
fn capture_fifo_order() {
    let mut fifo = CaptureFIFO::new();
    fifo.push(5);
    fifo.push(6);
    assert_eq!(fifo.len(), 2);
    assert_eq!(fifo.pop(), 5);
    assert_eq!(fifo.pop(), 6);
    assert_eq!(fifo.pop(), 0);
    fifo.push(7);
    fifo.clear();
    assert_eq!(fifo.len(), 0);
}

#[test]
fn sound_capture_registers() {
    let mut audio = DSAudio::new();
    audio.write_word(0x0400_0510, 0x0230_0001);
    audio.write_word(0x0400_0514, 0);
    audio.write_word(0x0400_0508, 0x8880);
    assert_eq!(audio.read_word(0x0400_0510), 0x0230_0000);
    assert_eq!(audio.read_word(0x0400_0514), 1);
    assert_eq!(audio.read_word(0x0400_0508), 0x8880);
    assert_eq!(audio.get_capture_dma_addr(0), 0x0230_0000);
    assert_eq!(audio.read_capture_fifo(0), 0);
}

#[test]
fn square_duty_repeats_every_eight_samples() {
    for duty in 0..=7u8 {
        let mut square = SquareGenerator::new();
        square.reset(duty);
        for m in 0..40u32 {
            let expected = if (m % 8) as u8 <= duty { SAMPLE_MAX } else { SAMPLE_MIN };
            assert_eq!(square.generate_sample(), expected);
        }
    }
}

#[test]
fn adpcm_restore_returns_to_the_loop_point() {
    let mut g = ADPCMGenerator::new();
    g.set_header(0x0020_0100);
    g.generate_sample(3);
    g.store_loop_values();
    let mut fresh = ADPCMGenerator::new();
    fresh.set_header(0x0020_0100);
    fresh.generate_sample(3);
    let expected = fresh.generate_sample(0xB);
    for d in [7u8, 15, 2, 9] {
        g.generate_sample(d);
    }
    g.set_header(0x0010_7000);
    g.restore_loop_values();
    assert_eq!(g.generate_sample(0xB), expected);
}
