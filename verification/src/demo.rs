//! The operations of a light client as one interface, and a stand-in for a
//! gateway that answers from fixed data.

use crate::types::{Error, Light, LightState, LightView};
use vstd::prelude::*;
use vstd::string::StringExecFns;

verus! {

/// The four operations on the lights of a gateway. Code written against this
/// trait runs with a live gateway or with [`DemoLightClient`] alike.
pub trait LightClient {
    /// Lists the lights, in no particular order.
    fn get_light_list(&self) -> Result<Vec<Light>, Error>;

    /// Switches a light on or off and leaves its colour alone.
    fn set_on_state(&self, light: &Light, state: bool) -> Result<(), Error>;

    /// Changes those of hue, brightness and saturation that are given and
    /// leaves the others as they are.
    fn set_light_color(
        &self,
        light: &Light,
        hue: Option<u16>,
        bri: Option<u8>,
        sat: Option<u8>,
    ) -> Result<(), Error>;

    /// Fetches the present state of a light.
    fn get_light_state(&self, light: &Light) -> Result<LightState, Error>;
}

/// The views of a list of lights.
pub open spec fn light_views(lights: Seq<Light>) -> Seq<LightView> {
    lights.map_values(|light: Light| light@)
}

/// The three lights of the demonstration.
pub open spec fn demo_lights() -> Seq<LightView> {
    seq![
        LightView { name: "Bathroom light"@, id: 1 },
        LightView { name: "Outside lighting"@, id: 2 },
        LightView { name: "Studio lamp"@, id: 3 },
    ]
}

/// The state that every light of the demonstration is in: on, reachable, hue
/// 0, full brightness, saturation 200.
pub open spec fn demo_state() -> LightState {
    LightState { on: true, reachable: true, hue: Some(0u16), bri: Some(255u8), sat: Some(200u8) }
}

/// A client without a gateway: it always lists the same three lights in the
/// same state, and accepts every change without effect.
#[derive(Debug, Clone, Copy)]
pub struct DemoLightClient {}

impl DemoLightClient {
    pub fn new() -> (r: DemoLightClient) {
        DemoLightClient {  }
    }
}

impl LightClient for DemoLightClient {
    fn get_light_list(&self) -> (r: Result<Vec<Light>, Error>)
        ensures
            r matches Ok(lights) && light_views(lights@) == demo_lights(),
    {
        let mut lights: Vec<Light> = Vec::new();
        lights.push(Light { name: String::from_str("Bathroom light"), id: 1 });
        lights.push(Light { name: String::from_str("Outside lighting"), id: 2 });
        lights.push(Light { name: String::from_str("Studio lamp"), id: 3 });
        proof {
            assert(light_views(lights@) =~= demo_lights());
        }
        Ok(lights)
    }

    fn set_on_state(&self, light: &Light, state: bool) -> (r: Result<(), Error>)
        ensures
            r is Ok,
    {
        Ok(())
    }

    fn set_light_color(
        &self,
        light: &Light,
        hue: Option<u16>,
        bri: Option<u8>,
        sat: Option<u8>,
    ) -> (r: Result<(), Error>)
        ensures
            r is Ok,
    {
        Ok(())
    }

    fn get_light_state(&self, light: &Light) -> (r: Result<LightState, Error>)
        ensures
            r == Ok::<LightState, Error>(demo_state()),
    {
        Ok(LightState { on: true, reachable: true, hue: Some(0), bri: Some(255), sat: Some(200) })
    }
}

} // verus!
